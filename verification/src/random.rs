//! What a ping takes from chance.

use vstd::prelude::*;

verus! {

/// The length of a token in bytes.
pub const TOKEN_SIZE: usize = 24;

/// What tells the replies to one ping from those to every other: the payload of
/// its request.
pub type Token = [u8; TOKEN_SIZE];

/// `rand::random` for an identifier. Claims nothing: every value can come.
#[verifier::external_body]
fn random_u16() -> (value: u16) {
    rand::random()
}

/// `rand::random` for a token. Claims nothing: every value can come.
#[verifier::external_body]
fn random_bytes() -> (value: Token) {
    rand::random()
}

/// Whether `ident` came out of the random number generator.
pub closed spec fn drawn_ident(ident: u16) -> bool {
    call_ensures(random_u16, (), ident)
}

/// Whether `token` came out of the random number generator.
pub closed spec fn drawn_token(token: Token) -> bool {
    call_ensures(random_bytes, (), token)
}

/// Draws an identifier at random.
pub fn random_ident() -> (ident: u16)
    ensures
        drawn_ident(ident),
{
    random_u16()
}

/// Draws a token at random.
pub fn random_token() -> (token: Token)
    ensures
        drawn_token(token),
{
    random_bytes()
}

/// What counts as drawn came out of the random number generator, and so does what is drawn.
proof fn law_drawn(ident: u16, token: Token)
    requires
        drawn_ident(ident) || call_ensures(random_ident, (), ident),
        drawn_token(token) || call_ensures(random_token, (), token),
    ensures
        call_ensures(random_u16, (), ident),
        call_ensures(random_bytes, (), token),
{
}

} // verus!

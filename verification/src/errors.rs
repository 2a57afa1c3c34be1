//! What can go wrong with a ping.

use vstd::prelude::*;

verus! {

/// Why a ping ended without an answer.
#[derive(Clone, Copy, Debug, PartialEq, Eq, Structural)]
pub enum Error {
    /// There is no socket for the address family of the host.
    InvalidProtocol,
    /// The request could not be made or sent, or the wait for its reply was cut off.
    InternalError,
}

} // verus!

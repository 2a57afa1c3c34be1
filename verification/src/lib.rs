//! The engine of an ICMP echo ("ping") library.
//!
//! A [`Pinger`] makes echo requests, each with a random token as its payload, and
//! remembers who waits for the reply that carries the token back. A [`PingFuture`]
//! is such a wait, a [`PingChain`] pings one host several times, and a
//! [`PingChainStream`] does so for as long as it is polled. The engine decides; what
//! drives it sends, receives and sleeps, and reports what came of it.

pub mod channel;
pub mod errors;
pub mod laws;
pub mod net;
pub mod packet;
pub mod ping;
pub mod random;
pub mod receiver;
pub mod socket;
pub mod state;
pub mod time;

pub use errors::Error;
pub use ping::{PingChain, PingChainStream, PingFuture, Pinger};

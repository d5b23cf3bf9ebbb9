//! File transfer over a raw, unframed TCP byte stream.
//!
//! The library holds the decisions of the two transfer roles as state
//! machines: the receiver, which accepts one connection at a time and
//! persists each payload to a fixed file, and the sender, which reads a
//! file, connects to a peer and writes the whole payload. The program that
//! drives them performs each action (bind, accept, read, write, connect) and
//! hands the outcome back as an event.
use vstd::prelude::*;

pub mod laws;
pub mod notice;
pub mod receiver;
pub mod sender;

verus! {

/// The TCP port on which the receiver listens and to which the sender connects.
pub const TRANSFER_PORT: u16 = 8080;

} // verus!

//! Core of a multi-room chat fan-out service: a lossy bounded broadcast
//! channel, a per-room message registry, the ingest path that stamps and
//! distributes messages, and the streaming sessions that drain the channel.
use vstd::prelude::*;

pub mod channel;
pub mod clock;
pub mod laws;
pub mod message;
pub mod registry;
pub mod service;
pub mod session;

verus! {

} // verus!

//! Core library of a peer-to-peer local-network sync tool: devices discover
//! one another, establish mutual trust by a PIN-verified pairing handshake,
//! and exchange clipboard content and files over an authenticated, encrypted
//! channel.
//!
//! The library holds the protocol logic itself: packet construction and
//! handling, the pairing state machine, the shared-key table, the framing of
//! wire messages and the transfer progress bookkeeping.  Sockets, timers and
//! the host platform's clipboard live outside, in the embedding application,
//! which feeds plain values in and carries plain values out.

pub mod clipboard;
pub mod crypto;
pub mod discovery;
pub mod errors;
pub mod pairing;
pub mod support;
pub mod transfer;
pub mod transport;
pub mod text;
pub mod types;
pub mod wire;

use vstd::prelude::*;
use crate::types::Config;

verus! {

/// The library's entry point: holds the configuration the embedding
/// application constructed, from which it wires the services together.
pub struct PasteAll {
    /// The configuration the services run with.
    pub config: Config,
}

impl PasteAll {
    /// Wraps a configuration, changing nothing in it.
    pub fn new(config: Config) -> (r: Self)
        ensures
            r.config == config,
    {
        PasteAll { config }
    }
}

} // verus!

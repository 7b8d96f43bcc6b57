//! Core protocol definitions for the Aetheris wire: identifiers, events,
//! error types, fragment reassembly and the framing used by the MessagePack
//! encoder.

pub mod allocator;
pub mod clock;
pub mod error;
pub mod events;
pub mod reassembler;
pub mod reassembly;
pub mod serde_encoder;
pub mod text;
pub mod traits;
pub mod types;

pub use reassembler::Reassembler;

use vstd::prelude::*;

verus! {

/// Maximum safe payload size for UDP datagrams to avoid fragmentation.
pub const MAX_SAFE_PAYLOAD_SIZE: usize = 1200;

/// Maximum number of fragments allowed for a single message.
pub const MAX_TOTAL_FRAGMENTS: u16 = 1024;

/// Estimated overhead in bytes for a fragment envelope on the wire.
pub const FRAGMENT_OVERHEAD: usize = 64;

/// The maximum bytes of game payload that can fit into a single MTU-safe fragment.
pub const MAX_FRAGMENT_PAYLOAD_SIZE: usize = MAX_SAFE_PAYLOAD_SIZE - FRAGMENT_OVERHEAD;

} // verus!

//! Bounds shared by the engine's trait facades.

use vstd::prelude::*;

verus! {

/// Helper trait that carries the `Send` bound a game transport must meet on
/// native targets. Every `Send` type has it.
pub trait GameTransportBounds: Send {}

impl<T: ?Sized + Send> GameTransportBounds for T {}

} // verus!

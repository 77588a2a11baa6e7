//! Identifiers of simulated agents.

use vstd::prelude::*;

verus! {

/// An opaque identifier of an agent. Two identifiers name the same agent
/// exactly when they are equal.
#[derive(Clone, Copy, Debug, PartialEq, Eq, Hash, Structural)]
pub struct Entity(pub u64);

} // verus!

use vstd::prelude::*;

verus! {

/// Marker for every output port: the use-case layer knows a port by this
/// trait, and the store layer implements it.
pub trait Port: Send + Sync {
}

} // verus!

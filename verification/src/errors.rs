use vstd::prelude::*;

verus! {

/// The one failure kind this core can itself produce: a state-machine
/// invariant would be broken (a zero block height, or a second record for
/// a height that already holds one). It is fatal to block processing;
/// the caller decides how to halt.
#[derive(Clone, Copy, Debug, PartialEq, Eq, Structural)]
pub enum IbcError {
    InvariantViolation,
}

} // verus!

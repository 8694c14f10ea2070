use crate::errors::IbcError;
use vstd::prelude::*;

verus! {

/// A two-part block identifier: a revision number (this chain never resets
/// its height, so it is always zero here) and the block height within that
/// revision. A height that denotes a real committed block never has a zero
/// `revision_height`.
#[derive(Clone, Copy, Debug, Hash, PartialEq, Eq, Structural)]
pub struct Height {
    pub revision_number: u64,
    pub revision_height: u64,
}

impl Height {
    /// A well-formed height denotes a committed block, and block height
    /// zero never occurs in a running chain.
    pub open spec fn wf(self) -> bool {
        self.revision_height > 0
    }

    /// Total order on heights: first by revision number, then by revision
    /// height.
    pub open spec fn spec_lt(self, other: Height) -> bool {
        ||| self.revision_number < other.revision_number
        ||| (self.revision_number == other.revision_number
            && self.revision_height < other.revision_height)
    }

    /// Constructs a height, rejecting a zero revision height: such a value
    /// signals a malformed or missing header field upstream and must not be
    /// silently tolerated.
    pub fn new(revision_number: u64, revision_height: u64) -> (r: Result<Height, IbcError>)
        ensures
            revision_height > 0 ==> (r matches Ok(h) && h.revision_number == revision_number
                && h.revision_height == revision_height && h.wf()),
            revision_height == 0 ==> r == Err::<Height, IbcError>(IbcError::InvariantViolation),
    {
        if revision_height == 0 {
            Err(IbcError::InvariantViolation)
        } else {
            Ok(Height { revision_number, revision_height })
        }
    }

    /// Strict ordering comparison.
    pub fn lt(&self, other: &Height) -> (r: bool)
        ensures
            r == self.spec_lt(*other),
    {
        self.revision_number < other.revision_number
            || (self.revision_number == other.revision_number
                && self.revision_height < other.revision_height)
    }
}

/// The ordering on heights is a strict total order: any two heights are
/// related in exactly one of the three ways, and the relation is transitive.
pub proof fn lemma_height_order_total(a: Height, b: Height, c: Height)
    ensures
        a.spec_lt(b) || b.spec_lt(a) || a == b,
        a.spec_lt(b) ==> !b.spec_lt(a) && a != b,
        a == b ==> !a.spec_lt(b),
        a.spec_lt(b) && b.spec_lt(c) ==> a.spec_lt(c),
{
}

} // verus!

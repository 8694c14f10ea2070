use crate::bytes::bytes_eq;
use crate::bytes::copy_bytes;
use vstd::prelude::*;

verus! {

/// The mathematical value of a consensus-state record: the commitment root
/// and next-validators hash as byte sequences, and the timestamp as an
/// unbounded count of nanoseconds.
#[verifier::ext_equal]
pub struct RecordView {
    pub commitment_root: Seq<u8>,
    pub timestamp_nanos: int,
    pub next_validators_hash: Seq<u8>,
}

/// An immutable snapshot of this chain's consensus-relevant header data at
/// one height: the commitment root over application state, the block's
/// wall-clock time (nanoseconds since the Unix epoch), and the hash of the
/// validator set in effect for the next block. Derived entirely from a
/// single block header.
pub struct ConsensusStateRecord {
    pub commitment_root: Vec<u8>,
    pub timestamp_nanos: i64,
    pub next_validators_hash: Vec<u8>,
}

impl View for ConsensusStateRecord {
    type V = RecordView;

    open spec fn view(&self) -> RecordView {
        RecordView {
            commitment_root: self.commitment_root@,
            timestamp_nanos: self.timestamp_nanos as int,
            next_validators_hash: self.next_validators_hash@,
        }
    }
}

impl ConsensusStateRecord {
    /// Packs the three header fields into a record, exactly as given: a
    /// pure, total function with no failure modes.
    pub fn derive(
        commitment_root: Vec<u8>,
        timestamp_nanos: i64,
        next_validators_hash: Vec<u8>,
    ) -> (r: ConsensusStateRecord)
        ensures
            r@ == (RecordView {
                commitment_root: commitment_root@,
                timestamp_nanos: timestamp_nanos as int,
                next_validators_hash: next_validators_hash@,
            }),
    {
        ConsensusStateRecord { commitment_root, timestamp_nanos, next_validators_hash }
    }

    /// An exact copy of the record.
    pub fn duplicate(&self) -> (r: ConsensusStateRecord)
        ensures
            r@ == self@,
    {
        let r = ConsensusStateRecord {
            commitment_root: copy_bytes(&self.commitment_root),
            timestamp_nanos: self.timestamp_nanos,
            next_validators_hash: copy_bytes(&self.next_validators_hash),
        };
        proof {
            assert(r@ =~= self@);
        }
        r
    }

    /// Whether two records carry the same fields.
    pub fn equals(&self, other: &ConsensusStateRecord) -> (r: bool)
        ensures
            r == (self@ == other@),
    {
        let r = bytes_eq(&self.commitment_root, &other.commitment_root)
            && self.timestamp_nanos == other.timestamp_nanos
            && bytes_eq(&self.next_validators_hash, &other.next_validators_hash);
        proof {
            if r {
                assert(self@ =~= other@);
            }
        }
        r
    }
}

} // verus!

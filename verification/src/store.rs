use crate::consensus_state::ConsensusStateRecord;
use crate::consensus_state::RecordView;
use crate::errors::IbcError;
use crate::height::Height;
use vstd::prelude::*;

verus! {

/// No two entries share a height.
spec fn unique_heights(s: Seq<(Height, ConsensusStateRecord)>) -> bool {
    forall|i: int, j: int|
        0 <= i < j < s.len() ==> (#[trigger] s[i]).0 != (#[trigger] s[j]).0
}

/// The mapping that a sequence of keyed entries denotes.
spec fn as_map(s: Seq<(Height, ConsensusStateRecord)>) -> Map<Height, RecordView>
    decreases s.len(),
{
    if s.len() == 0 {
        Map::empty()
    } else {
        as_map(s.drop_last()).insert(s.last().0, s.last().1@)
    }
}

/// The store mapping each committed height to the consensus-state record
/// captured for it. Append-only under block processing: a record, once
/// written for a height, is never overwritten or deleted, so a later read
/// of the same height returns the identical record.
pub struct ConsensusStateStore {
    entries: Vec<(Height, ConsensusStateRecord)>,
}

impl View for ConsensusStateStore {
    type V = Map<Height, RecordView>;

    closed spec fn view(&self) -> Map<Height, RecordView> {
        as_map(self.entries@)
    }
}

proof fn lemma_unique_drop_last(s: Seq<(Height, ConsensusStateRecord)>)
    requires
        unique_heights(s),
        s.len() > 0,
    ensures
        unique_heights(s.drop_last()),
{
    assert forall|i: int, j: int| 0 <= i < j < s.drop_last().len() implies (#[trigger] s.drop_last()[i]).0
        != (#[trigger] s.drop_last()[j]).0 by {
        assert(s.drop_last()[i] == s[i]);
        assert(s.drop_last()[j] == s[j]);
    }
}

/// Each entry of a uniquely-keyed sequence is in its map, under its own
/// height and with its own record.
proof fn lemma_as_map_index(s: Seq<(Height, ConsensusStateRecord)>, i: int)
    requires
        unique_heights(s),
        0 <= i < s.len(),
    ensures
        as_map(s).contains_key(s[i].0),
        as_map(s)[s[i].0] == s[i].1@,
    decreases s.len(),
{
    if i == s.len() - 1 {
    } else {
        lemma_unique_drop_last(s);
        lemma_as_map_index(s.drop_last(), i);
        assert(s.drop_last()[i] == s[i]);
        assert(s[i].0 != s.last().0);
    }
}

/// A height in the map comes from some entry of the sequence.
proof fn lemma_as_map_contains(s: Seq<(Height, ConsensusStateRecord)>, h: Height)
    requires
        as_map(s).contains_key(h),
    ensures
        exists|i: int| 0 <= i < s.len() && (#[trigger] s[i]).0 == h,
    decreases s.len(),
{
    if s.len() == 0 {
    } else if s.last().0 == h {
        assert(s[s.len() - 1].0 == h);
    } else {
        lemma_as_map_contains(s.drop_last(), h);
        let i = choose|i: int| 0 <= i < s.drop_last().len() && (#[trigger] s.drop_last()[i]).0 == h;
        assert(s[i].0 == h);
    }
}

impl ConsensusStateStore {
    /// Distinct heights address distinct entries, so a lookup is unambiguous.
    pub closed spec fn wf(&self) -> bool {
        unique_heights(self.entries@)
    }

    /// An empty store: nothing has been committed yet.
    pub fn new() -> (s: ConsensusStateStore)
        ensures
            s.wf(),
            s@ == Map::<Height, RecordView>::empty(),
    {
        ConsensusStateStore { entries: Vec::new() }
    }

    /// Looks up the record previously written at the given height, if any.
    pub fn get(&self, height: Height) -> (r: Option<&ConsensusStateRecord>)
        requires
            self.wf(),
        ensures
            match r {
                Some(rec) => self@.contains_key(height) && rec@ == self@[height],
                None => !self@.contains_key(height),
            },
    {
        let n = self.entries.len();
        let mut i: usize = 0;
        while i < n
            invariant
                self.wf(),
                n == self.entries@.len(),
                i <= n,
                forall|j: int| 0 <= j < i ==> (#[trigger] self.entries@[j]).0 != height,
            decreases n - i,
        {
            if self.entries[i].0 == height {
                proof {
                    lemma_as_map_index(self.entries@, i as int);
                }
                return Some(&self.entries[i].1);
            }
            i += 1;
        }
        proof {
            if as_map(self.entries@).contains_key(height) {
                lemma_as_map_contains(self.entries@, height);
            }
        }
        None
    }

    /// Whether a record was already written at the given height.
    pub fn contains(&self, height: Height) -> (r: bool)
        requires
            self.wf(),
        ensures
            r == self@.contains_key(height),
    {
        match self.get(height) {
            Some(_) => true,
            None => false,
        }
    }

    /// Writes the record under the given height. Rejects a height that
    /// already holds a record: the store is append-only, and overwriting a
    /// committed consensus state would break every counterparty's proof
    /// verification against it.
    pub fn put(&mut self, height: Height, record: ConsensusStateRecord) -> (r: Result<
        (),
        IbcError,
    >)
        requires
            old(self).wf(),
        ensures
            final(self).wf(),
            old(self)@.contains_key(height) ==> r == Err::<(), IbcError>(
                IbcError::InvariantViolation,
            ) && final(self)@ == old(self)@,
            !old(self)@.contains_key(height) ==> r == Ok::<(), IbcError>(()) && final(self)@
                == old(self)@.insert(height, record@),
    {
        if self.contains(height) {
            return Err(IbcError::InvariantViolation);
        }
        proof {
            assert forall|i: int| 0 <= i < self.entries@.len() implies (#[trigger] self.entries@[i]).0
                != height by {
                if self.entries@[i].0 == height {
                    lemma_as_map_index(self.entries@, i);
                }
            }
        }
        let ghost pre = self.entries@;
        self.entries.push((height, record));
        proof {
            assert(self.entries@.drop_last() =~= pre);
            assert(self.entries@.last() == (height, record));
            assert forall|i: int, j: int| 0 <= i < j < self.entries@.len() implies (
            #[trigger] self.entries@[i]).0 != (#[trigger] self.entries@[j]).0 by {
                if j < self.entries@.len() - 1 {
                    assert(self.entries@[i] == pre[i]);
                    assert(self.entries@[j] == pre[j]);
                } else {
                    assert(self.entries@[i] == pre[i]);
                }
            }
        }
        Ok(())
    }
}

} // verus!

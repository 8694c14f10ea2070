use crate::bytes::copy_bytes;
use crate::client_counter::ClientCounter;
use crate::consensus_state::ConsensusStateRecord;
use crate::consensus_state::RecordView;
use crate::errors::IbcError;
use crate::height::Height;
use crate::store::ConsensusStateStore;
use vstd::prelude::*;

verus! {

/// The consensus-relevant fields of one block header, as the host hands
/// them to the block-start hook: the block height, the commitment root over
/// application state, the block time (nanoseconds since the Unix epoch),
/// and the hash of the next block's validator set.
pub struct BlockHeader {
    pub height: u64,
    pub commitment_root: Vec<u8>,
    pub timestamp_nanos: i64,
    pub next_validators_hash: Vec<u8>,
}

/// The slice of the chain's state tree that this core owns: the
/// height-keyed consensus-state table and the client counter. The counter
/// is absent until chain initialization seeds it.
pub struct ChainState {
    pub consensus_states: ConsensusStateStore,
    pub client_counter: Option<ClientCounter>,
}

impl ChainState {
    pub open spec fn wf(&self) -> bool {
        self.consensus_states.wf()
    }

    /// The state before genesis: no consensus states, no counter.
    pub fn new() -> (s: ChainState)
        ensures
            s.wf(),
            s.consensus_states@ == Map::<Height, RecordView>::empty(),
            s.client_counter is None,
    {
        ChainState { consensus_states: ConsensusStateStore::new(), client_counter: None }
    }
}

/// The height under which a block's consensus state is stored: this chain
/// has no height-resetting upgrades, so the revision number is always zero.
pub open spec fn block_height(header: BlockHeader) -> Height {
    Height { revision_number: 0, revision_height: header.height }
}

/// The record that a block header determines: its fields, exactly as given,
/// with no transformation, truncation, or reordering.
pub open spec fn derived_record(header: BlockHeader) -> RecordView {
    RecordView {
        commitment_root: header.commitment_root@,
        timestamp_nanos: header.timestamp_nanos as int,
        next_validators_hash: header.next_validators_hash@,
    }
}

/// What chain initialization does: it seeds the client counter with zero
/// and touches nothing else.
pub open spec fn chain_init_rel(pre: ChainState, post: ChainState) -> bool {
    &&& post.client_counter == Some(ClientCounter(0u64))
    &&& post.consensus_states@ == pre.consensus_states@
}

/// A successful block start: the record derived from the header is stored
/// under the header's height, which held no record before, and the counter
/// is untouched.
pub open spec fn block_start_ok(pre: ChainState, header: BlockHeader, post: ChainState) -> bool {
    &&& header.height > 0
    &&& !pre.consensus_states@.contains_key(block_height(header))
    &&& post.consensus_states@ == pre.consensus_states@.insert(
        block_height(header),
        derived_record(header),
    )
    &&& post.client_counter == pre.client_counter
}

/// A rejected block start: the header's height is zero, or a record already
/// stands at it; the state is unchanged.
pub open spec fn block_start_rejected(pre: ChainState, header: BlockHeader, post: ChainState) -> bool {
    &&& (header.height == 0 || pre.consensus_states@.contains_key(block_height(header)))
    &&& post.consensus_states@ == pre.consensus_states@
    &&& post.client_counter == pre.client_counter
}

/// The full contract of the block-start hook: success exactly when the
/// height is positive and fresh, and each outcome's effect on the state.
pub open spec fn block_start_rel(
    pre: ChainState,
    header: BlockHeader,
    post: ChainState,
    r: Result<(), IbcError>,
) -> bool {
    &&& (r is Ok <==> (header.height > 0 && !pre.consensus_states@.contains_key(
        block_height(header),
    )))
    &&& (r is Ok ==> block_start_ok(pre, header, post))
    &&& (r is Err ==> r == Err::<(), IbcError>(IbcError::InvariantViolation)
        && block_start_rejected(pre, header, post))
}

/// The block-lifecycle hook. It keeps no state of its own between
/// invocations: each phase reads and writes the chain state it is handed,
/// so a node's behavior depends only on chain state, never on process
/// memory.
pub struct IBCComponent {}

impl IBCComponent {
    /// Chain initialization, run once at genesis: seeds the client counter
    /// with zero so that clients can be registered from the first block on.
    pub fn init_chain(state: &mut ChainState)
        requires
            old(state).wf(),
        ensures
            final(state).wf(),
            chain_init_rel(*old(state), *final(state)),
    {
        state.client_counter = Some(ClientCounter::initialize());
    }

    /// Block start, run once per block: derives a consensus-state record
    /// from the header and stores it under `Height { 0, header.height }`.
    /// A zero height denotes a corrupted or pre-genesis header, and a
    /// height that already holds a record would be silently rewritten
    /// history: both are invariant violations, and the state is left
    /// unchanged.
    pub fn begin_block(state: &mut ChainState, header: &BlockHeader) -> (r: Result<(), IbcError>)
        requires
            old(state).wf(),
        ensures
            final(state).wf(),
            block_start_rel(*old(state), *header, *final(state), r),
    {
        let commitment_root = copy_bytes(&header.commitment_root);
        let next_validators_hash = copy_bytes(&header.next_validators_hash);
        let record = ConsensusStateRecord::derive(
            commitment_root,
            header.timestamp_nanos,
            next_validators_hash,
        );
        proof {
            assert(record@ =~= derived_record(*header));
        }
        let height = match Height::new(0, header.height) {
            Ok(h) => h,
            Err(e) => {
                return Err(e);
            },
        };
        proof {
            assert(height == block_height(*header));
        }
        state.consensus_states.put(height, record)
    }

    /// Block end: no action in this core; an extension point for logic
    /// outside it. The state is untouched.
    pub fn end_block(state: &mut ChainState)
        ensures
            *final(state) == *old(state),
    {
    }

    /// Epoch end: no action in this core; an extension point for logic
    /// outside it. Always succeeds, and the state is untouched.
    pub fn end_epoch(state: &mut ChainState) -> (r: Result<(), IbcError>)
        ensures
            *final(state) == *old(state),
            r == Ok::<(), IbcError>(()),
    {
        Ok(())
    }
}

/// After chain initialization, a read of the client counter yields zero.
pub proof fn lemma_counter_reads_zero_after_init(pre: ChainState, post: ChainState)
    requires
        chain_init_rel(pre, post),
    ensures
        post.client_counter matches Some(c) && c.0 == 0,
{
}

/// The record stored by a successful block start is exactly the one derived
/// from the header's fields.
pub proof fn lemma_stored_record_matches_header(
    pre: ChainState,
    header: BlockHeader,
    post: ChainState,
)
    requires
        block_start_ok(pre, header, post),
    ensures
        post.consensus_states@.contains_key(block_height(header)),
        post.consensus_states@[block_height(header)] == derived_record(header),
{
}

/// A block start never disturbs a record stored at any other height:
/// whatever the outcome, every previously stored height still holds its
/// record, unchanged.
pub proof fn lemma_block_start_append_only(
    pre: ChainState,
    header: BlockHeader,
    post: ChainState,
    r: Result<(), IbcError>,
    h: Height,
)
    requires
        block_start_rel(pre, header, post, r),
        pre.consensus_states@.contains_key(h),
    ensures
        post.consensus_states@.contains_key(h),
        post.consensus_states@[h] == pre.consensus_states@[h],
{
}

/// A second block start at a height that already holds a record is
/// rejected, and the first record is kept: nothing is silently overwritten.
pub proof fn lemma_no_silent_overwrite(
    s0: ChainState,
    h1: BlockHeader,
    s1: ChainState,
    h2: BlockHeader,
    s2: ChainState,
    r2: Result<(), IbcError>,
)
    requires
        block_start_ok(s0, h1, s1),
        h2.height == h1.height,
        block_start_rel(s1, h2, s2, r2),
    ensures
        r2 is Err,
        s2.consensus_states@ == s1.consensus_states@,
        s2.consensus_states@[block_height(h1)] == derived_record(h1),
{
    assert(block_height(h2) == block_height(h1));
    assert(s1.consensus_states@.contains_key(block_height(h2)));
}

} // verus!

use ibc_component::client_counter::ClientCounter;
use ibc_component::component::BlockHeader;
use ibc_component::component::ChainState;
use ibc_component::component::IBCComponent;
use ibc_component::consensus_state::ConsensusStateRecord;
use ibc_component::errors::IbcError;
use ibc_component::height::Height;

fn header(height: u64, root: &[u8], nanos: i64, vals: &[u8]) -> BlockHeader {
    BlockHeader {
        height,
        commitment_root: root.to_vec(),
        timestamp_nanos: nanos,
        next_validators_hash: vals.to_vec(),
    }
}

#[test]
fn height_new_positive_round_trips() {
    for h in [1u64, 2, 1000, u64::MAX] {
        let ht = Height::new(0, h).unwrap();
        assert_eq!(ht.revision_number, 0);
        assert_eq!(ht.revision_height, h);
    }
    let ht = Height::new(7, 9).unwrap();
    assert_eq!(ht.revision_number, 7);
    assert_eq!(ht.revision_height, 9);
}

#[test]
fn height_new_zero_fails() {
    assert_eq!(Height::new(0, 0), Err(IbcError::InvariantViolation));
    assert_eq!(Height::new(5, 0), Err(IbcError::InvariantViolation));
}

#[test]
fn height_ordering_is_by_revision_then_height() {
    let a = Height::new(0, 1).unwrap();
    let b = Height::new(0, 2).unwrap();
    let c = Height::new(1, 1).unwrap();
    assert!(a.lt(&b));
    assert!(!b.lt(&a));
    assert!(b.lt(&c));
    assert!(!a.lt(&a));
    assert_eq!(a, Height::new(0, 1).unwrap());
}

#[test]
fn init_chain_seeds_counter_to_zero() {
    let mut state = ChainState::new();
    assert!(state.client_counter.is_none());
    IBCComponent::init_chain(&mut state);
    let counter = state.client_counter.expect("counter seeded at genesis");
    assert_eq!(counter.current(), 0);
    assert_eq!(counter, ClientCounter(0));
}

#[test]
fn begin_block_stores_exactly_the_derived_record() {
    let mut state = ChainState::new();
    IBCComponent::init_chain(&mut state);
    let r = IBCComponent::begin_block(&mut state, &header(1, b"R1", 17, b"V1"));
    assert_eq!(r, Ok(()));
    let key = Height::new(0, 1).unwrap();
    let stored = state.consensus_states.get(key).expect("record stored at block start");
    let expected = ConsensusStateRecord::derive(b"R1".to_vec(), 17, b"V1".to_vec());
    assert!(stored.equals(&expected));
    assert_eq!(stored.commitment_root, b"R1".to_vec());
    assert_eq!(stored.timestamp_nanos, 17);
    assert_eq!(stored.next_validators_hash, b"V1".to_vec());
}

#[test]
fn begin_block_zero_height_is_rejected_and_state_unchanged() {
    let mut state = ChainState::new();
    IBCComponent::init_chain(&mut state);
    let r = IBCComponent::begin_block(&mut state, &header(0, b"R0", 1, b"V0"));
    assert_eq!(r, Err(IbcError::InvariantViolation));
    assert!(state.consensus_states.get(Height::new(0, 1).unwrap()).is_none());
    assert_eq!(state.client_counter, Some(ClientCounter(0)));
}

#[test]
fn begin_block_same_height_twice_is_rejected_first_record_kept() {
    let mut state = ChainState::new();
    IBCComponent::init_chain(&mut state);
    assert_eq!(IBCComponent::begin_block(&mut state, &header(3, b"first", 100, b"VA")), Ok(()));
    let second = header(3, b"second", 200, b"VB");
    assert_eq!(
        IBCComponent::begin_block(&mut state, &second),
        Err(IbcError::InvariantViolation)
    );
    let key = Height::new(0, 3).unwrap();
    let stored = state.consensus_states.get(key).expect("first record still there");
    let first = ConsensusStateRecord::derive(b"first".to_vec(), 100, b"VA".to_vec());
    assert!(stored.equals(&first));
}

#[test]
fn end_block_and_end_epoch_are_no_ops() {
    let mut state = ChainState::new();
    IBCComponent::init_chain(&mut state);
    assert_eq!(IBCComponent::begin_block(&mut state, &header(1, b"R1", 5, b"V1")), Ok(()));
    IBCComponent::end_block(&mut state);
    assert_eq!(IBCComponent::end_epoch(&mut state), Ok(()));
    assert_eq!(state.client_counter, Some(ClientCounter(0)));
    let stored = state.consensus_states.get(Height::new(0, 1).unwrap()).unwrap();
    let expected = ConsensusStateRecord::derive(b"R1".to_vec(), 5, b"V1".to_vec());
    assert!(stored.equals(&expected));
}

#[test]
fn end_to_end_two_blocks_append_only() {
    // Genesis.
    let mut state = ChainState::new();
    IBCComponent::init_chain(&mut state);
    assert_eq!(state.client_counter.unwrap().current(), 0);

    // Block 1.
    assert_eq!(IBCComponent::begin_block(&mut state, &header(1, b"R1", 1000, b"V1")), Ok(()));
    IBCComponent::end_block(&mut state);
    let h1 = Height::new(0, 1).unwrap();
    let rec1 = ConsensusStateRecord::derive(b"R1".to_vec(), 1000, b"V1".to_vec());
    assert!(state.consensus_states.get(h1).unwrap().equals(&rec1));

    // Block 2.
    assert_eq!(IBCComponent::begin_block(&mut state, &header(2, b"R2", 2000, b"V2")), Ok(()));
    IBCComponent::end_block(&mut state);
    assert_eq!(IBCComponent::end_epoch(&mut state), Ok(()));

    // The first record is unchanged; the second is stored at its height.
    assert!(state.consensus_states.get(h1).unwrap().equals(&rec1));
    let h2 = Height::new(0, 2).unwrap();
    let rec2 = ConsensusStateRecord::derive(b"R2".to_vec(), 2000, b"V2".to_vec());
    assert!(state.consensus_states.get(h2).unwrap().equals(&rec2));
    assert!(state.consensus_states.get(Height::new(0, 3).unwrap()).is_none());
}

#[test]
fn store_get_absent_height_is_none() {
    let state = ChainState::new();
    assert!(state.consensus_states.get(Height::new(0, 42).unwrap()).is_none());
}

#[test]
fn record_derive_duplicate_and_equals() {
    let a = ConsensusStateRecord::derive(vec![1, 2, 3], -5, vec![9]);
    let b = a.duplicate();
    assert!(a.equals(&b));
    assert_eq!(b.commitment_root, vec![1, 2, 3]);
    assert_eq!(b.timestamp_nanos, -5);
    assert_eq!(b.next_validators_hash, vec![9]);
    let c = ConsensusStateRecord::derive(vec![1, 2, 4], -5, vec![9]);
    assert!(!a.equals(&c));
    let d = ConsensusStateRecord::derive(vec![1, 2, 3], -6, vec![9]);
    assert!(!a.equals(&d));
    let e = ConsensusStateRecord::derive(vec![1, 2, 3], -5, vec![]);
    assert!(!a.equals(&e));
}

#[test]
fn client_counter_initialize_and_current() {
    let c = ClientCounter::initialize();
    assert_eq!(c.current(), 0);
    let c7 = ClientCounter(7);
    assert_eq!(c7.current(), 7);
}

//! Per-block bookkeeping core of a blockchain node's IBC subsystem.
//!
//! At every committed block the chain records a snapshot of its own
//! consensus state, keyed by height, so that counterparty chains can later
//! verify proofs against it; at genesis it seeds the counter that mints
//! identifiers for light clients of other chains. All state lives in an
//! owned chain-state value, and every transition over it is verified.

pub mod bytes;
pub mod client_counter;
pub mod component;
pub mod consensus_state;
pub mod errors;
pub mod height;
pub mod store;

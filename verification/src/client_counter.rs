use vstd::prelude::*;

verus! {

/// The next identifier to hand out when registering a light client of a
/// counterparty chain. Seeded once, at genesis, with zero; incremented only
/// by the client-registration procedure, which is outside this core.
#[derive(Clone, Copy, Debug, PartialEq, Eq, Structural)]
pub struct ClientCounter(pub u64);

impl ClientCounter {
    /// The genesis counter: no client has been registered yet.
    pub fn initialize() -> (c: ClientCounter)
        ensures
            c.0 == 0,
    {
        ClientCounter(0)
    }

    /// The identifier the next client registration would receive.
    pub fn current(&self) -> (v: u64)
        ensures
            v == self.0,
    {
        self.0
    }
}

} // verus!

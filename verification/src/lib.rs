//! A minimal in-memory ledger runtime: an account-balance pallet with a
//! verified transfer transition, and a system pallet that tracks the block
//! number and a per-account nonce.

pub mod balances;
mod strmap;
pub mod system;

use vstd::prelude::*;

verus! {

/// The main runtime: the composition root that owns one instance of each
/// pallet and exposes no logic of its own.
pub struct Runtime {
    pub system: system::Pallet,
    pub balances: balances::Pallet,
}

impl Runtime {
    /// Create a new instance of the runtime, with every pallet in its
    /// initial state: no balances, block number zero, no nonces.
    pub fn new() -> (r: Self)
        ensures
            r.system.wf(),
            r.system.spec_block_number() == 0,
            r.system.nonces() == Map::<Seq<char>, u32>::empty(),
            r.balances.wf(),
            r.balances@ == Map::<Seq<char>, u128>::empty(),
    {
        Runtime { system: system::Pallet::new(), balances: balances::Pallet::new() }
    }
}

} // verus!

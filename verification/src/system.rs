//! The system pallet: low-level state of the runtime — the current block
//! number and a per-account nonce counting how many transactions each
//! account has made.

use crate::strmap::StrMap;
use vstd::prelude::*;

verus! {

/// The system module: block number and per-account nonces.
pub struct Pallet {
    block_number: u32,
    nonce: StrMap<u32>,
}

impl Pallet {
    /// Well-formedness of the underlying nonce store; established by `new`
    /// and preserved by every method.
    pub closed spec fn wf(&self) -> bool {
        self.nonce.wf()
    }

    /// The current block number.
    pub closed spec fn spec_block_number(&self) -> u32 {
        self.block_number
    }

    /// The stored nonce entries, as a map from account characters to counts.
    pub closed spec fn nonces(&self) -> Map<Seq<char>, u32> {
        self.nonce@
    }

    /// The nonce of `who`: the stored count, or zero for an account never
    /// incremented.
    pub open spec fn spec_nonce(&self, who: Seq<char>) -> u32 {
        if self.nonces().contains_key(who) {
            self.nonces()[who]
        } else {
            0
        }
    }

    /// Create a new instance of the system pallet: block number zero, no
    /// nonce entries.
    pub fn new() -> (r: Self)
        ensures
            r.wf(),
            r.spec_block_number() == 0,
            r.nonces() == Map::<Seq<char>, u32>::empty(),
    {
        Pallet { block_number: 0, nonce: StrMap::new() }
    }

    /// Get the current block number.
    pub fn block_number(&self) -> (r: u32)
        ensures
            r == self.spec_block_number(),
    {
        self.block_number
    }

    /// Increase the block number by one.
    pub fn inc_block_number(&mut self)
        requires
            old(self).wf(),
            old(self).spec_block_number() < u32::MAX,
        ensures
            final(self).wf(),
            final(self).spec_block_number() == old(self).spec_block_number() + 1,
            final(self).nonces() == old(self).nonces(),
    {
        self.block_number = self.block_number + 1;
    }

    /// Increment the nonce of account `who` by one; an account never
    /// incremented starts from zero.
    pub fn inc_nonce(&mut self, who: &String)
        requires
            old(self).wf(),
            old(self).spec_nonce(who@) < u32::MAX,
        ensures
            final(self).wf(),
            final(self).nonces() == old(self).nonces().insert(
                who@,
                (old(self).spec_nonce(who@) + 1) as u32,
            ),
            final(self).spec_block_number() == old(self).spec_block_number(),
    {
        let current_nonce: u32 = match self.nonce.get(who) {
            Some(v) => *v,
            None => 0,
        };
        self.nonce.set(who, current_nonce + 1);
    }

    /// Get the nonce of account `who`; zero if the account was never
    /// incremented.
    pub fn nonce(&self, who: &String) -> (r: u32)
        requires
            self.wf(),
        ensures
            r == self.spec_nonce(who@),
    {
        match self.nonce.get(who) {
            Some(v) => *v,
            None => 0,
        }
    }
}

/// Incrementing the nonce of one account twice raises that account's nonce
/// by exactly two and leaves every other account's nonce unchanged. The
/// premises on `mid` and `after` are what `inc_nonce` ensures for each of
/// the two calls.
pub proof fn lemma_inc_nonce_twice(
    before: Pallet,
    mid: Pallet,
    after: Pallet,
    who: Seq<char>,
    other: Seq<char>,
)
    requires
        other != who,
        before.spec_nonce(who) + 2 <= u32::MAX,
        mid.nonces() == before.nonces().insert(who, (before.spec_nonce(who) + 1) as u32),
        after.nonces() == mid.nonces().insert(who, (mid.spec_nonce(who) + 1) as u32),
    ensures
        after.spec_nonce(who) == before.spec_nonce(who) + 2,
        after.spec_nonce(other) == before.spec_nonce(other),
{
}

/// Advancing the block number twice increases it by exactly two. The
/// premises on `mid` and `after` are what `inc_block_number` ensures for
/// each of the two calls.
pub proof fn lemma_inc_block_number_twice(before: Pallet, mid: Pallet, after: Pallet)
    requires
        before.spec_block_number() + 2 <= u32::MAX,
        mid.spec_block_number() == before.spec_block_number() + 1,
        after.spec_block_number() == mid.spec_block_number() + 1,
    ensures
        after.spec_block_number() == before.spec_block_number() + 2,
{
}

} // verus!

//! The account registry: the current block height and each account's nonce.

use vstd::prelude::*;

use crate::store::StrMap;

verus! {

/// The nonce an account holds under a nonce map: the stored value, or zero
/// where the account was never a caller. Reads never create entries.
pub open spec fn nonce_of(m: Map<Seq<char>, u32>, who: Seq<char>) -> u32 {
    if m.contains_key(who) {
        m[who]
    } else {
        0
    }
}

/// The system module: the global block height and per-account nonces.
pub struct SystemModule {
    block_number: u32,
    nonces: StrMap<u32>,
}

impl SystemModule {
    /// The current block height.
    pub closed spec fn spec_block_number(&self) -> u32 {
        self.block_number
    }

    /// The map of stored nonces.
    pub closed spec fn spec_nonces(&self) -> Map<Seq<char>, u32> {
        self.nonces@
    }

    /// The module's internal invariant.
    pub closed spec fn wf(&self) -> bool {
        self.nonces.wf()
    }

    /// Creates the module at height zero with no nonce entries.
    pub fn new() -> (m: Self)
        ensures
            m.wf(),
            m.spec_block_number() == 0,
            m.spec_nonces() == Map::<Seq<char>, u32>::empty(),
    {
        SystemModule { block_number: 0, nonces: StrMap::new() }
    }

    /// Reads the current block height.
    pub fn block_number(&self) -> (r: u32)
        ensures
            r == self.spec_block_number(),
    {
        self.block_number
    }

    /// Advances the global height by exactly one.
    pub fn inc_block_number(&mut self)
        requires
            old(self).spec_block_number() < u32::MAX,
        ensures
            final(self).wf() == old(self).wf(),
            final(self).spec_block_number() == old(self).spec_block_number() + 1,
            final(self).spec_nonces() == old(self).spec_nonces(),
    {
        self.block_number = self.block_number + 1;
    }

    /// Reads an account's nonce, zero for accounts never seen as callers.
    pub fn nonce(&self, who: &String) -> (r: u32)
        requires
            self.wf(),
        ensures
            r == nonce_of(self.spec_nonces(), who@),
    {
        match self.nonces.get(who) {
            Some(v) => *v,
            None => 0,
        }
    }

    /// Advances an account's nonce by exactly one, creating a zero entry
    /// first where the account was never seen.
    pub fn inc_nonce(&mut self, who: &String)
        requires
            old(self).wf(),
            nonce_of(old(self).spec_nonces(), who@) < u32::MAX,
        ensures
            final(self).wf(),
            final(self).spec_block_number() == old(self).spec_block_number(),
            final(self).spec_nonces() == old(self).spec_nonces().insert(
                who@,
                (nonce_of(old(self).spec_nonces(), who@) + 1) as u32,
            ),
    {
        let current = self.nonce(who);
        self.nonces.set(who.clone(), current + 1);
    }
}

/// An account with no prior writes reads as zero: its balance and its nonce
/// both default to zero while no entry for it exists.
pub proof fn lemma_unwritten_account_defaults(
    balances: Map<Seq<char>, u128>,
    nonces: Map<Seq<char>, u32>,
    who: Seq<char>,
)
    requires
        !balances.contains_key(who),
        !nonces.contains_key(who),
    ensures
        crate::balances::balance_of(balances, who) == 0,
        nonce_of(nonces, who) == 0,
{
}

} // verus!

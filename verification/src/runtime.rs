//! The runtime: composes the system, balances and proof-of-existence
//! modules, routes dispatched calls to them, and owns the canonical
//! block-execution loop.

use vstd::prelude::*;

use crate::balances::BalancesModule;
use crate::balances::balance_of;
use crate::balances::spec_balances_dispatch;
use crate::errors::ErrorKind;
use crate::proof_of_existence::POEModule;
use crate::proof_of_existence::spec_poe_dispatch;
use crate::support::Block;
use crate::support::Extrinsic;
use crate::support::ExtrinsicFailure;
use crate::support::RuntimeCall;
use crate::system::SystemModule;
use crate::system::nonce_of;

verus! {

/// The abstract state of a whole runtime: the block height and the three
/// modules' maps.
pub ghost struct StateView {
    /// The current block height.
    pub block_number: u32,
    /// The stored nonces.
    pub nonces: Map<Seq<char>, u32>,
    /// The stored balances.
    pub balances: Map<Seq<char>, u128>,
    /// The stored claims, each fingerprint bound to its owner.
    pub claims: Map<Seq<char>, Seq<char>>,
}

/// The dispatch transition: routes a call by its outer tag to the owning
/// module's own dispatch transition. Routing has no state of its own and
/// touches nothing but the owning module's map.
pub open spec fn spec_dispatch(s: StateView, caller: Seq<char>, call: RuntimeCall) -> (Result<
    (),
    ErrorKind,
>, StateView) {
    match call {
        RuntimeCall::Balances(inner) => {
            let (r, balances) = spec_balances_dispatch(s.balances, caller, inner);
            (
                r,
                StateView {
                    block_number: s.block_number,
                    nonces: s.nonces,
                    balances,
                    claims: s.claims,
                },
            )
        },
        RuntimeCall::ProofOfExistence(inner) => {
            let (r, claims) = spec_poe_dispatch(s.claims, caller, inner);
            (
                r,
                StateView {
                    block_number: s.block_number,
                    nonces: s.nonces,
                    balances: s.balances,
                    claims,
                },
            )
        },
    }
}

/// One extrinsic's transition: the caller's nonce advances by one whatever
/// the call's outcome, then the call is dispatched.
pub open spec fn spec_apply_extrinsic(s: StateView, ext: Extrinsic) -> (Result<(), ErrorKind>, StateView) {
    let bumped = StateView {
        block_number: s.block_number,
        nonces: s.nonces.insert(ext.caller@, (nonce_of(s.nonces, ext.caller@) + 1) as u32),
        balances: s.balances,
        claims: s.claims,
    };
    spec_dispatch(bumped, ext.caller@, ext.call)
}

/// How many extrinsics in the sequence name `who` as their caller.
pub open spec fn count_caller(exts: Seq<Extrinsic>, who: Seq<char>) -> int
    decreases exts.len(),
{
    if exts.len() == 0 {
        0
    } else {
        count_caller(exts.drop_last(), who) + if exts.last().caller@ == who {
            1int
        } else {
            0int
        }
    }
}

/// A whole block body's transition: every extrinsic is applied in order,
/// and each failure is recorded with the block number and the failing
/// extrinsic's index instead of stopping the run.
pub open spec fn spec_apply_extrinsics(
    s: StateView,
    block_number: u32,
    exts: Seq<Extrinsic>,
) -> (StateView, Seq<ExtrinsicFailure>)
    decreases exts.len(),
{
    if exts.len() == 0 {
        (s, Seq::<ExtrinsicFailure>::empty())
    } else {
        let (st, failures) = spec_apply_extrinsics(s, block_number, exts.drop_last());
        let (r, applied) = spec_apply_extrinsic(st, exts.last());
        match r {
            Ok(_) => (applied, failures),
            Err(e) => (
                applied,
                failures.push(
                    ExtrinsicFailure {
                        block_number,
                        extrinsic_index: (exts.len() - 1) as usize,
                        error: e,
                    },
                ),
            ),
        }
    }
}

proof fn lemma_count_caller_take_succ(exts: Seq<Extrinsic>, who: Seq<char>, i: int)
    requires
        0 <= i < exts.len(),
    ensures
        count_caller(exts.take(i + 1), who) == count_caller(exts.take(i), who) + if exts[i].caller@
            == who {
            1int
        } else {
            0int
        },
{
    assert(exts.take(i + 1).drop_last() =~= exts.take(i));
    assert(exts.take(i + 1).last() == exts[i]);
}

proof fn lemma_count_caller_take_le(exts: Seq<Extrinsic>, who: Seq<char>, i: int)
    requires
        0 <= i <= exts.len(),
    ensures
        count_caller(exts.take(i), who) <= count_caller(exts, who),
    decreases exts.len() - i,
{
    if i == exts.len() {
        assert(exts.take(i) =~= exts);
    } else {
        lemma_count_caller_take_succ(exts, who, i);
        lemma_count_caller_take_le(exts, who, i + 1);
    }
}

/// Nonce monotonicity: applying a sequence of extrinsics advances each
/// account's nonce by exactly the number of those extrinsics that name it
/// as caller, whatever each call returned; every other account's nonce is
/// untouched.
pub proof fn lemma_apply_extrinsics_nonces(s: StateView, block_number: u32, exts: Seq<Extrinsic>)
    requires
        forall|who: Seq<char>|
            nonce_of(s.nonces, who) + #[trigger] count_caller(exts, who) <= u32::MAX,
    ensures
        forall|who: Seq<char>|
            nonce_of(spec_apply_extrinsics(s, block_number, exts).0.nonces, who) == nonce_of(
                s.nonces,
                who,
            ) + #[trigger] count_caller(exts, who),
    decreases exts.len(),
{
    if exts.len() > 0 {
        let prefix = exts.drop_last();
        assert forall|who: Seq<char>|
            nonce_of(s.nonces, who) + #[trigger] count_caller(prefix, who) <= u32::MAX by {
            assert(count_caller(prefix, who) <= count_caller(exts, who));
        };
        lemma_apply_extrinsics_nonces(s, block_number, prefix);
        let st = spec_apply_extrinsics(s, block_number, prefix).0;
        let last = exts.last();
        assert forall|who: Seq<char>|
            nonce_of(spec_apply_extrinsics(s, block_number, exts).0.nonces, who) == nonce_of(
                s.nonces,
                who,
            ) + #[trigger] count_caller(exts, who) by {
            assert(nonce_of(st.nonces, who) == nonce_of(s.nonces, who) + count_caller(prefix, who));
            assert(nonce_of(st.nonces, last.caller@) == nonce_of(s.nonces, last.caller@)
                + count_caller(prefix, last.caller@));
            assert(count_caller(exts, last.caller@) == count_caller(prefix, last.caller@) + 1);
        };
    }
}

/// The runtime: the aggregate of the three modules, exclusively owned, the
/// sole holder of the canonical block-execution loop.
pub struct Runtime {
    system: SystemModule,
    balances: BalancesModule,
    proof_of_existence: POEModule,
}

impl View for Runtime {
    type V = StateView;

    closed spec fn view(&self) -> StateView {
        StateView {
            block_number: self.system.spec_block_number(),
            nonces: self.system.spec_nonces(),
            balances: self.balances@,
            claims: self.proof_of_existence@,
        }
    }
}

impl Runtime {
    /// The runtime's internal invariant: each module's own invariant.
    pub closed spec fn wf(&self) -> bool {
        &&& self.system.wf()
        &&& self.balances.wf()
        &&& self.proof_of_existence.wf()
    }

    /// Creates a runtime at height zero with no entries anywhere.
    pub fn new() -> (r: Self)
        ensures
            r.wf(),
            r@.block_number == 0,
            r@.nonces == Map::<Seq<char>, u32>::empty(),
            r@.balances == Map::<Seq<char>, u128>::empty(),
            r@.claims == Map::<Seq<char>, Seq<char>>::empty(),
    {
        Runtime {
            system: SystemModule::new(),
            balances: BalancesModule::new(),
            proof_of_existence: POEModule::new(),
        }
    }

    /// Genesis escape hatch: overwrites an account's balance directly,
    /// bypassing dispatch and nonce bookkeeping.
    pub fn set_balance(&mut self, who: String, amount: u128)
        requires
            old(self).wf(),
        ensures
            final(self).wf(),
            final(self)@ == (StateView {
                balances: old(self)@.balances.insert(who@, amount),
                ..old(self)@
            }),
    {
        self.balances.set_balance(who, amount);
    }

    /// Reads an account's balance, zero for accounts never written to.
    pub fn balance(&self, who: &String) -> (r: u128)
        requires
            self.wf(),
        ensures
            r == balance_of(self@.balances, who@),
    {
        self.balances.balance(who)
    }

    /// Reads an account's nonce, zero for accounts never seen as callers.
    pub fn nonce(&self, who: &String) -> (r: u32)
        requires
            self.wf(),
        ensures
            r == nonce_of(self@.nonces, who@),
    {
        self.system.nonce(who)
    }

    /// Reads the current block height.
    pub fn block_number(&self) -> (r: u32)
        ensures
            r == self@.block_number,
    {
        self.system.block_number()
    }

    /// Looks a claim up; `None` exactly when the fingerprint is unclaimed.
    pub fn get_claim(&self, claim: &String) -> (r: Option<String>)
        requires
            self.wf(),
        ensures
            match r {
                Some(owner) => self@.claims.contains_key(claim@) && owner@ == self@.claims[claim@],
                None => !self@.claims.contains_key(claim@),
            },
    {
        self.proof_of_existence.get_claim(claim)
    }

    /// Routes a call to the owning module by its outer tag, then by its
    /// inner tag to the module's own mutating method. The match is
    /// exhaustive over all declared variants.
    pub fn dispatch(&mut self, caller: &String, call: RuntimeCall) -> (r: Result<(), ErrorKind>)
        requires
            old(self).wf(),
        ensures
            final(self).wf(),
            (r, final(self)@) == spec_dispatch(old(self)@, caller@, call),
    {
        match call {
            RuntimeCall::Balances(inner) => self.balances.dispatch(caller, inner),
            RuntimeCall::ProofOfExistence(inner) => self.proof_of_existence.dispatch(caller, inner),
        }
    }

    /// Executes one block.
    ///
    /// The height is advanced by one first and is never rolled back, even
    /// when the header's declared number does not equal the new height and
    /// the block is rejected wholesale with `BlockNumberMismatch`. Once the
    /// header check passes, every extrinsic is applied in order: the
    /// caller's nonce advances, the call is dispatched, and a failure is
    /// contained — recorded in the returned report with the block number and
    /// the extrinsic's index — never propagated to fail the block.
    pub fn execute_block(&mut self, block: Block) -> (r: Result<Vec<ExtrinsicFailure>, ErrorKind>)
        requires
            old(self).wf(),
            old(self)@.block_number < u32::MAX,
            forall|who: Seq<char>|
                nonce_of(old(self)@.nonces, who) + #[trigger] count_caller(
                    block.extrinsics@,
                    who,
                ) <= u32::MAX,
        ensures
            final(self).wf(),
            final(self)@.block_number == old(self)@.block_number + 1,
            block.header.block_number != old(self)@.block_number + 1 ==> {
                &&& r == Result::<Vec<ExtrinsicFailure>, ErrorKind>::Err(
                    ErrorKind::BlockNumberMismatch,
                )
                &&& final(self)@.nonces == old(self)@.nonces
                &&& final(self)@.balances == old(self)@.balances
                &&& final(self)@.claims == old(self)@.claims
            },
            block.header.block_number == old(self)@.block_number + 1 ==> ({
                let s0 = StateView {
                    block_number: block.header.block_number,
                    nonces: old(self)@.nonces,
                    balances: old(self)@.balances,
                    claims: old(self)@.claims,
                };
                let (st, failures) = spec_apply_extrinsics(
                    s0,
                    block.header.block_number,
                    block.extrinsics@,
                );
                &&& r matches Ok(report) && report@ == failures
                &&& final(self)@ == st
            }),
    {
        self.system.inc_block_number();
        let current = self.system.block_number();
        if block.header.block_number != current {
            return Err(ErrorKind::BlockNumberMismatch);
        }
        let ghost s0 = self@;
        let ghost exts0 = block.extrinsics@;
        let mut rest = block.extrinsics;
        let total: usize = rest.len();
        let mut report: Vec<ExtrinsicFailure> = Vec::new();
        let mut i: usize = 0;
        while rest.len() > 0
            invariant
                self.wf(),
                exts0.len() == total,
                i + rest@.len() == exts0.len(),
                rest@ == exts0.skip(i as int),
                current == s0.block_number,
                self@.block_number == s0.block_number,
                forall|who: Seq<char>|
                    nonce_of(s0.nonces, who) + #[trigger] count_caller(exts0, who) <= u32::MAX,
                ({
                    let (st, failures) = spec_apply_extrinsics(s0, current, exts0.take(i as int));
                    self@ == st && report@ == failures
                }),
            decreases rest@.len(),
        {
            let ext = rest.remove(0);
            proof {
                assert(ext == exts0[i as int]);
                assert(rest@ =~= exts0.skip(i as int + 1));
                assert forall|who: Seq<char>|
                    nonce_of(s0.nonces, who) + #[trigger] count_caller(
                        exts0.take(i as int),
                        who,
                    ) <= u32::MAX by {
                    lemma_count_caller_take_le(exts0, who, i as int);
                };
                lemma_apply_extrinsics_nonces(s0, current, exts0.take(i as int));
                lemma_count_caller_take_succ(exts0, ext.caller@, i as int);
                lemma_count_caller_take_le(exts0, ext.caller@, i as int + 1);
                assert(count_caller(exts0, ext.caller@) <= u32::MAX);
            }
            self.system.inc_nonce(&ext.caller);
            let res = self.dispatch(&ext.caller, ext.call);
            if let Err(e) = res {
                report.push(
                    ExtrinsicFailure { block_number: current, extrinsic_index: i, error: e },
                );
            }
            proof {
                assert(exts0.take(i as int + 1).drop_last() =~= exts0.take(i as int));
                assert(exts0.take(i as int + 1).last() == exts0[i as int]);
            }
            i = i + 1;
        }
        proof {
            assert(exts0.take(i as int) =~= exts0);
        }
        Ok(report)
    }
}

} // verus!

//! The claim registry: exclusive ownership records binding a content
//! fingerprint to the one account that currently owns it.

use vstd::prelude::*;

use crate::errors::ErrorKind;
use crate::store::StrMap;

verus! {

/// The create-claim transition on a claims map: the result of
/// `create_claim(owner, claim)` together with the map after the call.
pub open spec fn spec_create_claim(
    m: Map<Seq<char>, Seq<char>>,
    owner: Seq<char>,
    claim: Seq<char>,
) -> (Result<(), ErrorKind>, Map<Seq<char>, Seq<char>>) {
    if m.contains_key(claim) {
        (Err(ErrorKind::ClaimAlreadyExists), m)
    } else {
        (Ok(()), m.insert(claim, owner))
    }
}

/// The revoke-claim transition on a claims map: the result of
/// `revoke_claim(caller, claim)` together with the map after the call.
pub open spec fn spec_revoke_claim(
    m: Map<Seq<char>, Seq<char>>,
    caller: Seq<char>,
    claim: Seq<char>,
) -> (Result<(), ErrorKind>, Map<Seq<char>, Seq<char>>) {
    if !m.contains_key(claim) {
        (Err(ErrorKind::ClaimNotFound), m)
    } else if m[claim] != caller {
        (Err(ErrorKind::NotClaimOwner), m)
    } else {
        (Ok(()), m.remove(claim))
    }
}

/// The calls the proof-of-existence module exposes to dispatch.
pub enum POECall {
    /// Claim ownership of `claim` for the caller.
    CreateClaim { claim: String },
    /// Give up the caller's ownership of `claim`.
    RevokeClaim { claim: String },
}

/// The dispatch transition of the proof-of-existence module: routes a call
/// to the mutating method that implements it.
pub open spec fn spec_poe_dispatch(
    m: Map<Seq<char>, Seq<char>>,
    caller: Seq<char>,
    call: POECall,
) -> (Result<(), ErrorKind>, Map<Seq<char>, Seq<char>>) {
    match call {
        POECall::CreateClaim { claim } => spec_create_claim(m, caller, claim@),
        POECall::RevokeClaim { claim } => spec_revoke_claim(m, caller, claim@),
    }
}

/// The proof-of-existence module: maps each claimed content fingerprint to
/// its one current owner.
pub struct POEModule {
    claims: StrMap<String>,
}

impl View for POEModule {
    type V = Map<Seq<char>, Seq<char>>;

    closed spec fn view(&self) -> Map<Seq<char>, Seq<char>> {
        self.claims@.map_values(|owner: String| owner@)
    }
}

impl POEModule {
    /// The module's internal invariant.
    pub closed spec fn wf(&self) -> bool {
        self.claims.wf()
    }

    /// Creates the module with no claims.
    pub fn new() -> (m: Self)
        ensures
            m.wf(),
            m@ == Map::<Seq<char>, Seq<char>>::empty(),
    {
        let m = POEModule { claims: StrMap::new() };
        proof {
            assert(m@ =~= Map::<Seq<char>, Seq<char>>::empty());
        }
        m
    }

    /// Looks a claim up; `None` exactly when the fingerprint is unclaimed.
    pub fn get_claim(&self, claim: &String) -> (r: Option<String>)
        requires
            self.wf(),
        ensures
            match r {
                Some(owner) => self@.contains_key(claim@) && owner@ == self@[claim@],
                None => !self@.contains_key(claim@),
            },
    {
        match self.claims.get(claim) {
            Some(owner) => Some(owner.clone()),
            None => None,
        }
    }

    /// Records `owner` as the owner of `claim`.
    ///
    /// Fails with `ClaimAlreadyExists` when the fingerprint is already
    /// claimed; on failure nothing is written.
    pub fn create_claim(&mut self, owner: &String, claim: &String) -> (r: Result<(), ErrorKind>)
        requires
            old(self).wf(),
        ensures
            final(self).wf(),
            (r, final(self)@) == spec_create_claim(old(self)@, owner@, claim@),
    {
        if self.claims.get(claim).is_some() {
            return Err(ErrorKind::ClaimAlreadyExists);
        }
        let ghost before = self.claims@;
        self.claims.set(claim.clone(), owner.clone());
        proof {
            assert(self@ =~= before.map_values(|o: String| o@).insert(claim@, owner@));
        }
        Ok(())
    }

    /// Removes `claim`, provided `caller` owns it.
    ///
    /// Fails with `ClaimNotFound` when the fingerprint is unclaimed and with
    /// `NotClaimOwner` when the stored owner is not the caller; on failure
    /// nothing is written.
    pub fn revoke_claim(&mut self, caller: &String, claim: &String) -> (r: Result<(), ErrorKind>)
        requires
            old(self).wf(),
        ensures
            final(self).wf(),
            (r, final(self)@) == spec_revoke_claim(old(self)@, caller@, claim@),
    {
        let is_owner: bool = match self.claims.get(claim) {
            None => {
                return Err(ErrorKind::ClaimNotFound);
            },
            Some(stored) => *stored == *caller,
        };
        if !is_owner {
            return Err(ErrorKind::NotClaimOwner);
        }
        let ghost before = self.claims@;
        self.claims.remove(claim);
        proof {
            assert(self@ =~= before.map_values(|o: String| o@).remove(claim@));
        }
        Ok(())
    }

    /// Routes a proof-of-existence call to the method that implements it.
    pub fn dispatch(&mut self, caller: &String, call: POECall) -> (r: Result<(), ErrorKind>)
        requires
            old(self).wf(),
        ensures
            final(self).wf(),
            (r, final(self)@) == spec_poe_dispatch(old(self)@, caller@, call),
    {
        match call {
            POECall::CreateClaim { claim } => self.create_claim(caller, &claim),
            POECall::RevokeClaim { claim } => self.revoke_claim(caller, &claim),
        }
    }
}

/// The claim lifecycle: creating a claim makes its creator the unique owner;
/// a second create on the same fingerprint fails with `ClaimAlreadyExists`
/// and changes nothing; a revoke by a non-owner fails with `NotClaimOwner`
/// and leaves the claim intact; a revoke by the owner removes the claim.
pub proof fn lemma_claim_lifecycle(
    m: Map<Seq<char>, Seq<char>>,
    owner: Seq<char>,
    other: Seq<char>,
    claim: Seq<char>,
)
    requires
        !m.contains_key(claim),
    ensures
        ({
            let created = spec_create_claim(m, owner, claim).1;
            &&& spec_create_claim(m, owner, claim).0 is Ok
            &&& created[claim] == owner
            &&& spec_create_claim(created, other, claim) == (
                Result::<(), ErrorKind>::Err(ErrorKind::ClaimAlreadyExists),
                created,
            )
            &&& other != owner ==> spec_revoke_claim(created, other, claim) == (
                Result::<(), ErrorKind>::Err(ErrorKind::NotClaimOwner),
                created,
            )
            &&& spec_revoke_claim(created, owner, claim).0 is Ok
            &&& !spec_revoke_claim(created, owner, claim).1.contains_key(claim)
        }),
{
}

} // verus!

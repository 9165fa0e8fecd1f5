//! The proof-of-existence module: an exclusive registry binding a content
//! key to the one account that claimed it, with ownership-gated
//! revocation. A key's absence means "unclaimed"; a claim is never
//! overwritten in place, only created and revoked.

use std::collections::BTreeMap;

use vstd::prelude::*;

use crate::support::{ordered_key, DispatchResult, ErrorKind};

verus! {

broadcast use vstd::std_specs::btree::group_btree_axioms;

/// The claim registry: at most one owning account per content key.
pub struct Pallet<A, C> {
    claims: BTreeMap<C, A>,
}

impl<A, C> View for Pallet<A, C> {
    type V = Map<C, A>;

    closed spec fn view(&self) -> Map<C, A> {
        self.claims@
    }
}

/// The owner a registry assigns to `claim`: the stored account, or `None`
/// while the key is unclaimed.
pub open spec fn claim_in<A, C>(m: Map<C, A>, claim: C) -> Option<A> {
    if m.contains_key(claim) {
        Some(m[claim])
    } else {
        None
    }
}

/// The state and result that one `create_claim` call leaves behind: an
/// occupied key is rejected without mutation, a vacant one records the
/// caller as owner.
pub open spec fn spec_create_claim<A, C>(pre: Map<C, A>, caller: A, claim: C) -> (
    Map<C, A>,
    DispatchResult,
) {
    if pre.contains_key(claim) {
        (pre, Err(ErrorKind::ClaimAlreadyExists))
    } else {
        (pre.insert(claim, caller), Ok(()))
    }
}

/// The state and result that one `revoke_claim` call leaves behind.
/// Existence is checked before ownership, so a vacant key reports
/// `ClaimNotFound` and an occupied key owned by someone else reports
/// `NotClaimOwner`; either error leaves the registry untouched.
pub open spec fn spec_revoke_claim<A, C>(pre: Map<C, A>, caller: A, claim: C) -> (
    Map<C, A>,
    DispatchResult,
) {
    if !pre.contains_key(claim) {
        (pre, Err(ErrorKind::ClaimNotFound))
    } else if pre[claim] != caller {
        (pre, Err(ErrorKind::NotClaimOwner))
    } else {
        (pre.remove(claim), Ok(()))
    }
}

impl<A: Ord + Copy, C: Ord + Copy> Pallet<A, C> {
    /// A registry with no claims: every content key reads as unclaimed.
    pub fn new() -> (s: Self)
        ensures
            s@ == Map::<C, A>::empty(),
    {
        Pallet { claims: BTreeMap::new() }
    }

    /// The owner of `claim`, or `None` while it is unclaimed. Pure: a
    /// lookup never inserts a key.
    pub fn get_claim(&self, claim: &C) -> (r: Option<&A>)
        requires
            ordered_key::<C>(),
        ensures
            match r {
                Some(owner) => claim_in(self@, *claim) == Some(*owner),
                None => claim_in(self@, *claim) is None,
            },
    {
        self.claims.get(claim)
    }

    /// Records `caller` as the owner of `claim`, unless the key is
    /// already claimed, in which case nothing is mutated.
    pub fn create_claim(&mut self, caller: A, claim: C) -> (r: DispatchResult)
        requires
            ordered_key::<A>(),
            ordered_key::<C>(),
        ensures
            (final(self)@, r) == spec_create_claim(old(self)@, caller, claim),
            r is Ok <==> !old(self)@.contains_key(claim),
    {
        match self.get_claim(&claim) {
            Some(_) => Err(ErrorKind::ClaimAlreadyExists),
            None => {
                self.claims.insert(claim, caller);
                Ok(())
            },
        }
    }

    /// Removes the claim on `claim`, provided it exists and `caller` owns
    /// it; on either error nothing is mutated. Ownership is compared by
    /// value equality, not identity.
    pub fn revoke_claim(&mut self, caller: A, claim: C) -> (r: DispatchResult)
        requires
            ordered_key::<A>(),
            ordered_key::<C>(),
        ensures
            (final(self)@, r) == spec_revoke_claim(old(self)@, caller, claim),
            r is Ok <==> claim_in(old(self)@, claim) == Some(caller),
    {
        proof {
            reveal(vstd::laws_eq::obeys_concrete_eq);
        }
        let claim_owner = match self.get_claim(&claim) {
            Some(owner) => *owner,
            None => { return Err(ErrorKind::ClaimNotFound) },
        };
        if claim_owner != caller {
            return Err(ErrorKind::NotClaimOwner);
        }
        self.claims.remove(&claim);
        Ok(())
    }
}

/// The claims module's concrete call surface: one variant per callable
/// operation, each carrying exactly the arguments the operation needs
/// beyond the caller.
pub enum Call<C> {
    CreateClaim { claim: C },
    RevokeClaim { claim: C },
}

impl<A: Ord + Copy, C: Ord + Copy> Pallet<A, C> {
    /// Routes one claims call to the operation it names, forwarding the
    /// operation's result unchanged.
    pub fn dispatch(&mut self, caller: A, call: Call<C>) -> (r: DispatchResult)
        requires
            ordered_key::<A>(),
            ordered_key::<C>(),
        ensures
            match call {
                Call::CreateClaim { claim } => (final(self)@, r) == spec_create_claim(
                    old(self)@,
                    caller,
                    claim,
                ),
                Call::RevokeClaim { claim } => (final(self)@, r) == spec_revoke_claim(
                    old(self)@,
                    caller,
                    claim,
                ),
            },
    {
        match call {
            Call::CreateClaim { claim } => self.create_claim(caller, claim),
            Call::RevokeClaim { claim } => self.revoke_claim(caller, claim),
        }
    }
}

/// Claim uniqueness: once a claim on a vacant key succeeds, the key maps
/// to its first claimant, and a second claim on the same key by anyone,
/// the first claimant included, is rejected with `ClaimAlreadyExists` and
/// mutates nothing.
pub proof fn lemma_claim_uniqueness<A, C>(pre: Map<C, A>, c1: A, c2: A, k: C)
    requires
        !pre.contains_key(k),
    ensures
        ({
            let (m1, r1) = spec_create_claim(pre, c1, k);
            let (m2, r2) = spec_create_claim(m1, c2, k);
            &&& r1 is Ok
            &&& claim_in(m1, k) == Some(c1)
            &&& r2 == Err::<(), ErrorKind>(ErrorKind::ClaimAlreadyExists)
            &&& m2 == m1
        }),
{
}

/// Ownership-gated revoke: while a key is owned by one account, a revoke
/// by anyone else fails with `NotClaimOwner` and leaves the claim in
/// place; a revoke by the owner succeeds and leaves the key unclaimed;
/// and a second revoke then fails with `ClaimNotFound`, mutating nothing.
pub proof fn lemma_revoke_gated_by_ownership<A, C>(pre: Map<C, A>, c1: A, c2: A, k: C)
    requires
        claim_in(pre, k) == Some(c1),
        c2 != c1,
    ensures
        ({
            let (m_other, r_other) = spec_revoke_claim(pre, c2, k);
            let (m_owner, r_owner) = spec_revoke_claim(pre, c1, k);
            let (m_again, r_again) = spec_revoke_claim(m_owner, c1, k);
            &&& r_other == Err::<(), ErrorKind>(ErrorKind::NotClaimOwner)
            &&& m_other == pre
            &&& claim_in(m_other, k) == Some(c1)
            &&& r_owner is Ok
            &&& claim_in(m_owner, k) is None
            &&& r_again == Err::<(), ErrorKind>(ErrorKind::ClaimNotFound)
            &&& m_again == m_owner
        }),
{
}

/// A claim on one key leaves every other key exactly as it was, claimed
/// or not; so does a revoke.
pub proof fn lemma_claims_frame_other_keys<A, C>(pre: Map<C, A>, caller: A, k: C, other: C)
    requires
        other != k,
    ensures
        claim_in(spec_create_claim(pre, caller, k).0, other) == claim_in(pre, other),
        claim_in(spec_revoke_claim(pre, caller, k).0, other) == claim_in(pre, other),
{
}

} // verus!

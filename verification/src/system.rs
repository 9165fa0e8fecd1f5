//! The system module: the global block counter and the per-account nonce
//! counters, both monotonic, both starting at zero, together with the
//! concrete call surface that drives the block counter.

use std::collections::BTreeMap;

use vstd::prelude::*;

use crate::support::{ordered_key, DispatchResult};

pub use SystemPallet as Pallet;

verus! {

broadcast use vstd::std_specs::btree::group_btree_axioms;

/// The single global monotonic counter: incremented by exactly one call,
/// starting at zero.
pub type BlockNumber = u64;

/// A per-account monotonic counter under the same sparse default-zero
/// convention as a balance.
pub type Nonce = u64;

/// The system state: one block counter and one nonce counter per account.
/// Both live for the lifetime of the runtime and are never reset.
pub struct SystemPallet<A> {
    pub block_number: BlockNumber,
    pub nonce: BTreeMap<A, Nonce>,
}

/// The nonce a sparse mapping assigns to `who`: the stored value, or zero
/// for an absent key.
pub open spec fn nonce_in<A>(m: Map<A, Nonce>, who: A) -> Nonce {
    if m.contains_key(who) {
        m[who]
    } else {
        0
    }
}

/// The nonce mapping after one `inc_nonce` for `who`. Meaningful only
/// below the numeric ceiling, which `inc_nonce` itself stays under.
pub open spec fn spec_inc_nonce<A>(pre: Map<A, Nonce>, who: A) -> Map<A, Nonce> {
    pre.insert(who, (nonce_in(pre, who) + 1) as Nonce)
}

impl<A: Ord + Copy> SystemPallet<A> {
    /// A fresh system state: block number zero, no nonce entries.
    pub fn new() -> (s: Self)
        ensures
            s.block_number == 0,
            s.nonce@ == Map::<A, Nonce>::empty(),
    {
        SystemPallet { block_number: 0, nonce: BTreeMap::new() }
    }

    /// The current block number. Pure.
    pub fn block_number(&self) -> (r: BlockNumber)
        ensures
            r == self.block_number,
    {
        self.block_number
    }

    /// Advances the block counter by exactly one. The bound is a machine
    /// limit of the counter's numeric type, not a business rule.
    pub fn inc_block_number(&mut self)
        requires
            old(self).block_number < BlockNumber::MAX,
        ensures
            final(self).block_number == old(self).block_number + 1,
            final(self).nonce == old(self).nonce,
    {
        self.block_number = self.block_number + 1;
    }

    /// The nonce of `who` under the sparse default-zero convention. Pure:
    /// a lookup never inserts a key.
    pub fn get_nonce(&self, who: &A) -> (r: Nonce)
        requires
            ordered_key::<A>(),
        ensures
            r == nonce_in(self.nonce@, *who),
    {
        match self.nonce.get(who) {
            Some(n) => *n,
            None => 0,
        }
    }

    /// Reads the current nonce of `who` (zero when absent) and writes back
    /// its successor. The bound is a machine limit of the counter's type.
    pub fn inc_nonce(&mut self, who: &A)
        requires
            ordered_key::<A>(),
            nonce_in(old(self).nonce@, *who) < Nonce::MAX,
        ensures
            final(self).nonce@ == spec_inc_nonce(old(self).nonce@, *who),
            final(self).block_number == old(self).block_number,
    {
        let nonce = self.get_nonce(who);
        self.nonce.insert(*who, nonce + 1);
    }
}

/// The system module's concrete call surface: its only callable operation
/// advances the block counter, for any caller, never failing.
pub enum Call {
    IncBlockNumber,
}

impl<A: Ord + Copy> SystemPallet<A> {
    /// Routes one system call to the operation it names. The caller is
    /// accepted but ignored: advancing the block counter is open to all.
    pub fn dispatch(&mut self, _caller: A, call: Call) -> (r: DispatchResult)
        requires
            old(self).block_number < BlockNumber::MAX,
        ensures
            r is Ok,
            final(self).block_number == old(self).block_number + 1,
            final(self).nonce == old(self).nonce,
    {
        match call {
            Call::IncBlockNumber => {
                self.inc_block_number();
                Ok(())
            },
        }
    }
}

/// Default-zero: an account that was never written is absent from the
/// nonce mapping and reads as a zero nonce.
pub proof fn lemma_default_zero_nonce<A>(m: Map<A, Nonce>, who: A)
    requires
        !m.contains_key(who),
    ensures
        nonce_in(m, who) == 0,
{
}

/// The block counter after `n` increments, each adding exactly one.
pub open spec fn repeat_inc_block_number(start: BlockNumber, n: nat) -> int
    decreases n,
{
    if n == 0 {
        start as int
    } else {
        repeat_inc_block_number(start, (n - 1) as nat) + 1
    }
}

/// The nonce mapping after `n` increments for the same account.
pub open spec fn repeat_inc_nonce<A>(pre: Map<A, Nonce>, who: A, n: nat) -> Map<A, Nonce>
    decreases n,
{
    if n == 0 {
        pre
    } else {
        spec_inc_nonce(repeat_inc_nonce(pre, who, (n - 1) as nat), who)
    }
}

/// Monotonic block counter: `n` increments advance the block number by
/// exactly `n`; from the initial zero it reads `n`.
pub proof fn lemma_block_number_counts_increments(start: BlockNumber, n: nat)
    ensures
        repeat_inc_block_number(start, n) == start + n,
    decreases n,
{
    if n > 0 {
        lemma_block_number_counts_increments(start, (n - 1) as nat);
    }
}

/// Monotonic nonces: `n` increments for one account, none of them hitting
/// the numeric ceiling, raise that account's nonce by exactly `n` — from
/// the initial zero it reads `n` — and leave every other account's nonce
/// exactly as it was.
pub proof fn lemma_nonce_counts_increments<A>(pre: Map<A, Nonce>, who: A, n: nat)
    requires
        nonce_in(pre, who) + n <= Nonce::MAX,
    ensures
        nonce_in(repeat_inc_nonce(pre, who, n), who) == nonce_in(pre, who) + n,
        forall|other: A| other != who ==> nonce_in(#[trigger] repeat_inc_nonce(pre, who, n), other)
            == nonce_in(pre, other),
    decreases n,
{
    if n > 0 {
        lemma_nonce_counts_increments(pre, who, (n - 1) as nat);
        assert forall|other: A| other != who implies nonce_in(
            #[trigger] repeat_inc_nonce(pre, who, n),
            other,
        ) == nonce_in(pre, other) by {
            assert(nonce_in(repeat_inc_nonce(pre, who, (n - 1) as nat), other) == nonce_in(
                pre,
                other,
            ));
        }
    }
}

} // verus!

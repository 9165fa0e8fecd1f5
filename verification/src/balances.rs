//! The balances module: a sparse mapping from account to balance, where an
//! absent key reads as zero, and a transfer operation whose checked
//! arithmetic conserves total supply on every path.

use std::collections::BTreeMap;

use vstd::prelude::*;

use crate::support::{ordered_key, DispatchResult, ErrorKind};

verus! {

broadcast use vstd::std_specs::btree::group_btree_axioms;

/// The numeric quantity an account holds: never negative by construction,
/// moved only through checked addition and subtraction.
pub type Balance = u64;

/// Per-account balances. The mapping is a sparse representation of a total
/// function from account to balance defaulting to zero: a key's absence
/// means a zero balance, and a zero written by `set_balance` stays present.
pub struct Pallet<A> {
    balances: BTreeMap<A, Balance>,
}

impl<A> View for Pallet<A> {
    type V = Map<A, Balance>;

    closed spec fn view(&self) -> Map<A, Balance> {
        self.balances@
    }
}

/// The balance a sparse mapping assigns to `who`: the stored value, or
/// zero for an absent key.
pub open spec fn balance_in<A>(m: Map<A, Balance>, who: A) -> Balance {
    if m.contains_key(who) {
        m[who]
    } else {
        0
    }
}

/// The state and result that one `transfer` call leaves behind: validation
/// happens before any mutation, so an error leaves the mapping untouched,
/// and a self-transfer of a covered amount keeps the balance as it was.
pub open spec fn spec_transfer<A>(
    pre: Map<A, Balance>,
    caller: A,
    to: A,
    amount: Balance,
) -> (Map<A, Balance>, DispatchResult) {
    let caller_balance = balance_in(pre, caller);
    let to_balance = balance_in(pre, to);
    if caller_balance < amount {
        (pre, Err(ErrorKind::InsufficientBalance))
    } else if caller != to && to_balance + amount > Balance::MAX {
        (pre, Err(ErrorKind::ArithmeticOverflow))
    } else if caller == to {
        (pre.insert(caller, caller_balance), Ok(()))
    } else {
        (
            pre.insert(caller, (caller_balance - amount) as Balance).insert(
                to,
                (to_balance + amount) as Balance,
            ),
            Ok(()),
        )
    }
}

impl<A: Ord + Copy> Pallet<A> {
    /// A ledger with no entries: every account reads as zero.
    pub fn new() -> (s: Self)
        ensures
            s@ == Map::<A, Balance>::empty(),
    {
        Pallet { balances: BTreeMap::new() }
    }

    /// The balance of `who` under the sparse default-zero convention.
    pub open spec fn spec_balance(self, who: A) -> Balance {
        balance_in(self@, who)
    }

    /// Unconditionally overwrites (or inserts) the balance for `who`: a
    /// low-level primitive with no validation.
    pub fn set_balance(&mut self, who: &A, amount: Balance)
        requires
            ordered_key::<A>(),
        ensures
            final(self)@ == old(self)@.insert(*who, amount),
    {
        self.balances.insert(*who, amount);
    }

    /// The stored balance of `who`, or zero if absent. Pure: the mapping is
    /// never touched by a lookup.
    pub fn get_balance(&self, who: &A) -> (r: Balance)
        requires
            ordered_key::<A>(),
        ensures
            r == self.spec_balance(*who),
    {
        match self.balances.get(who) {
            Some(b) => *b,
            None => 0,
        }
    }

    /// Moves `amount` from `caller` to `to`. Both balances are read and
    /// both checks pass before either is written, so an error performs no
    /// mutation at all, and a self-transfer of a covered amount leaves the
    /// balance exactly as it was.
    pub fn transfer(&mut self, caller: A, to: A, amount: Balance) -> (r: DispatchResult)
        requires
            ordered_key::<A>(),
        ensures
            (final(self)@, r) == spec_transfer(old(self)@, caller, to, amount),
            r is Err ==> final(self)@ == old(self)@,
            r is Ok <==> amount <= old(self).spec_balance(caller) && (caller == to || old(
                self,
            ).spec_balance(to) + amount <= Balance::MAX),
    {
        proof {
            reveal(vstd::laws_eq::obeys_concrete_eq);
        }
        let caller_balance = self.get_balance(&caller);
        let to_balance = self.get_balance(&to);

        let new_caller_balance = match caller_balance.checked_sub(amount) {
            Some(b) => b,
            None => { return Err(ErrorKind::InsufficientBalance) },
        };

        // A self-transfer credits the same account it just debited, so the
        // addition starts from the debited value and lands back on the
        // original balance; it cannot overflow.
        let credit_base = if &caller == &to {
            new_caller_balance
        } else {
            to_balance
        };
        let new_to_balance = match credit_base.checked_add(amount) {
            Some(b) => b,
            None => { return Err(ErrorKind::ArithmeticOverflow) },
        };

        self.set_balance(&caller, new_caller_balance);
        self.set_balance(&to, new_to_balance);
        Ok(())
    }
}

/// The balances module's concrete call surface: one variant per callable
/// operation, carrying exactly the arguments the operation needs beyond
/// the caller.
pub enum Call<A> {
    Transfer { to: A, amount: Balance },
}

impl<A: Ord + Copy> Pallet<A> {
    /// Routes one balances call to the operation it names, forwarding the
    /// operation's result unchanged.
    pub fn dispatch(&mut self, caller: A, call: Call<A>) -> (r: DispatchResult)
        requires
            ordered_key::<A>(),
        ensures
            match call {
                Call::Transfer { to, amount } => (final(self)@, r) == spec_transfer(
                    old(self)@,
                    caller,
                    to,
                    amount,
                ),
            },
    {
        match call {
            Call::Transfer { to, amount } => self.transfer(caller, to, amount),
        }
    }
}

/// Conservation: a transfer between two distinct accounts, covered by the
/// source's balance and fitting the destination's numeric range, succeeds,
/// debits the source by exactly the amount, credits the destination by
/// exactly the amount, and so keeps their combined holdings unchanged.
pub proof fn lemma_transfer_conservation<A>(pre: Map<A, Balance>, a: A, b: A, v: Balance)
    requires
        a != b,
        balance_in(pre, a) >= v,
        balance_in(pre, b) + v <= Balance::MAX,
    ensures
        ({
            let (post, r) = spec_transfer(pre, a, b, v);
            &&& r is Ok
            &&& balance_in(post, a) == balance_in(pre, a) - v
            &&& balance_in(post, b) == balance_in(pre, b) + v
            &&& balance_in(post, a) + balance_in(post, b) == balance_in(pre, a) + balance_in(
                pre,
                b,
            )
        }),
{
}

/// Self-transfer idempotence: a transfer from an account to itself of any
/// amount its balance covers succeeds and leaves that balance unchanged.
pub proof fn lemma_self_transfer_identity<A>(pre: Map<A, Balance>, a: A, v: Balance)
    requires
        balance_in(pre, a) >= v,
    ensures
        ({
            let (post, r) = spec_transfer(pre, a, a, v);
            &&& r is Ok
            &&& balance_in(post, a) == balance_in(pre, a)
        }),
{
}

/// No mutation on failure: a transfer that reports any error leaves the
/// whole mapping, and so every account's balance, exactly as it was.
pub proof fn lemma_transfer_failure_mutates_nothing<A>(
    pre: Map<A, Balance>,
    caller: A,
    to: A,
    v: Balance,
)
    ensures
        ({
            let (post, r) = spec_transfer(pre, caller, to, v);
            r is Err ==> post == pre
        }),
{
}

/// Transfers touch no third account: whatever the outcome, the balance of
/// every account other than the two parties is exactly as it was.
pub proof fn lemma_transfer_frames_others<A>(
    pre: Map<A, Balance>,
    caller: A,
    to: A,
    v: Balance,
    other: A,
)
    requires
        other != caller,
        other != to,
    ensures
        balance_in(spec_transfer(pre, caller, to, v).0, other) == balance_in(pre, other),
{
}

/// Default-zero: an account that was never written is absent from the
/// mapping and reads as a zero balance.
pub proof fn lemma_default_zero_balance<A>(m: Map<A, Balance>, who: A)
    requires
        !m.contains_key(who),
    ensures
        balance_in(m, who) == 0,
{
}

} // verus!

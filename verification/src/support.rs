//! Shared pieces of the call surface: the business error kinds that every
//! module operation can report, and the model of a well-behaved key type.

use vstd::prelude::*;

verus! {

/// The closed set of business errors a module operation can report.
/// These are expected outcomes, not fatal conditions: retrying the same
/// call with the same arguments reproduces the same error.
#[derive(Clone, Copy, Debug, PartialEq, Eq, Structural)]
pub enum ErrorKind {
    /// A transfer's source account lacks the funds.
    InsufficientBalance,
    /// A transfer's destination balance would overflow its numeric range.
    ArithmeticOverflow,
    /// `create_claim` on a content key that is already claimed.
    ClaimAlreadyExists,
    /// `revoke_claim` on a content key that nobody has claimed.
    ClaimNotFound,
    /// `revoke_claim` by a caller who does not own the claim.
    NotClaimOwner,
}

/// What every callable module operation returns: success, or one business
/// error, with no payload beyond the kind.
pub type DispatchResult = Result<(), ErrorKind>;

/// A key type fit for a module's mapping: its `Ord` behaves as a total
/// order and its `==` agrees with equality of values. The embedding
/// runtime supplies the identity and content types; this is the ordering
/// capability it owes them. The integer types, among others, obey it.
pub open spec fn ordered_key<T: Ord>() -> bool {
    &&& vstd::laws_cmp::obeys_cmp::<T>()
    &&& vstd::laws_eq::obeys_concrete_eq::<T>()
}

} // verus!

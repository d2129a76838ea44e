//! The flat error taxonomy of the engine. Every operation either fully
//! commits its documented state changes or fails with one of these and
//! changes nothing.

use vstd::prelude::*;

verus! {

/// Why an operation was refused. No error is recovered from internally:
/// each aborts the single operation it arose in, with no partial effect.
#[derive(Clone, Copy, Debug, PartialEq, Eq, Structural)]
pub enum Error {
    /// Catch-all for invariant violations not otherwise classified:
    /// an out-of-range index, a mismatched table or vault, an
    /// insufficient vault balance, a duplicate record, an overflowed
    /// credit.
    SomeError,
    /// `start_reimbursement` on an account that has already started.
    ReimbursementAlreadyStarted,
    /// `reimburse` on an account that has not started.
    ReimbursementNotStarted,
    /// The payout destination is not owned by the claiming identity.
    TokenAccountNotOwnedByMangoAccountOwner,
    /// The claimant was already paid out for this asset index.
    AlreadyReimbursed,
    /// The caller's identity does not carry the required capability.
    BadSigner,
    /// A test-only operation was attempted on a production group.
    TestingOnly,
    /// The table row at the given index belongs to someone else.
    TableRowHasWrongOwner,
    /// The campaign policy requires accepting the claim transfer.
    MustTransferClaim,
}

} // verus!

//! The durable records of a reimbursement campaign: the group that scopes
//! it, the snapshot table of owed amounts, the per-asset vaults, the
//! per-claimant progress accounts, and the token accounts that funds move
//! between. Records are plain owned values keyed by stable identifiers;
//! the storage layer above this engine holds them and hands them in.

use vstd::prelude::*;

verus! {

/// How many asset indices a campaign distinguishes. Every
/// [`ReimbursementAccount`] carries one independent paid-out flag per
/// index below this bound.
pub const MAX_TOKENS: usize = 16;

/// An identity, as the out-of-scope signature-verification collaborator
/// reports it: two identities are the same claimant or authority exactly
/// when their keys are equal.
#[derive(Clone, Copy, Debug, PartialEq, Eq, Structural)]
pub struct Identity {
    pub key: u64,
}

/// One claimant's immutable entitlement snapshot: the owning identity and,
/// per asset index, the owed quantity. An index at or beyond `owed.len()`
/// owes nothing and cannot be reimbursed.
#[derive(Debug)]
pub struct Row {
    pub owner: Identity,
    pub owed: Vec<u64>,
}

/// An ordered, append-only collection of [`Row`] snapshots, uniquely
/// numbered within its group and looked up by position at claim time.
#[derive(Debug)]
pub struct Table {
    pub table_num: u32,
    pub rows: Vec<Row>,
}

/// The scope of one reimbursement campaign: its administrative authority,
/// the destination that accepted legal claims are assigned to, the
/// test-mode flag, and a reference to the currently active table.
#[derive(Debug)]
pub struct Group {
    pub group_num: u32,
    pub authority: Identity,
    pub claim_transfer_destination: Identity,
    /// When set, test-only shortcuts are allowed; in particular the
    /// claim-transfer requirement of [`crate::reimburse`] is waived.
    pub testing: bool,
    /// The number of the active table, once one has been attached by
    /// [`crate::edit_group`]. Payouts go by the table referenced at the
    /// moment of the call, never by an earlier one.
    pub table_ref: Option<u32>,
}

/// Custody record for one asset class: how much of that token the
/// campaign still holds for payout. The balance only ever decreases
/// through the distribution engine and the administrative sweep.
#[derive(Debug)]
pub struct Vault {
    pub token_index: usize,
    pub balance: u64,
}

/// A token-holding account outside the campaign's custody: the payout
/// destination of a claimant, or the authority's own account in an
/// administrative sweep.
#[derive(Debug)]
pub struct TokenAccount {
    pub owner: Identity,
    pub balance: u64,
}

/// Per-claimant progress record, keyed by (group, claimant). `started`
/// flips once; each `reimbursed` flag flips once, independently per asset
/// index. No flag is ever cleared: the record only accumulates progress.
#[derive(Debug)]
pub struct ReimbursementAccount {
    pub owner: Identity,
    pub started: bool,
    pub reimbursed: Vec<bool>,
}

impl ReimbursementAccount {
    /// A well-formed account carries exactly one paid-out flag per asset
    /// index the campaign distinguishes.
    pub open spec fn wf(self) -> bool {
        self.reimbursed@.len() == MAX_TOKENS
    }
}

} // verus!

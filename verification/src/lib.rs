//! Reconciliation and distribution engine for a fixed-snapshot token
//! reimbursement campaign.
//!
//! A campaign is scoped by a [`Group`], which binds together one snapshot
//! [`Table`] of owed amounts, a set of per-asset [`Vault`]s holding custody
//! funds, and per-claimant [`ReimbursementAccount`] records that guarantee
//! at-most-one payout per (claimant, asset). The distribution engine
//! ([`reimburse`]) looks up the claimant's row, checks identity and state,
//! computes the payout at the fixed campaign conversion ratio, debits the
//! vault and credits the claimant — atomically: a failed precondition leaves
//! every record unchanged.

pub mod admin;
pub mod engine;
pub mod error;
pub mod laws;
pub mod state;

pub use admin::add_rows;
pub use admin::change_authority;
pub use admin::create_group;
pub use admin::create_table;
pub use admin::create_vault;
pub use admin::edit_group;
pub use admin::withdraw_to_authority;
pub use engine::create_reimbursement_account;
pub use engine::reimburse;
pub use engine::start_reimbursement;
pub use error::Error;
pub use state::Group;
pub use state::Identity;
pub use state::ReimbursementAccount;
pub use state::Row;
pub use state::Table;
pub use state::TokenAccount;
pub use state::Vault;

//! The distribution engine: per-claimant progress accounts, the fixed
//! campaign conversion ratio, and the `reimburse` operation that pays a
//! claimant at most once per asset while debiting the vault exactly.

use vstd::arithmetic::div_mod::lemma_div_is_ordered;
use vstd::arithmetic::div_mod::lemma_div_multiples_vanish;
use vstd::arithmetic::mul::lemma_mul_inequality;
use vstd::prelude::*;

use crate::error::Error;
use crate::state::Group;
use crate::state::Identity;
use crate::state::ReimbursementAccount;
use crate::state::Table;
use crate::state::TokenAccount;
use crate::state::Vault;
use crate::state::MAX_TOKENS;

verus! {

/// Numerator of the fixed campaign-wide conversion ratio: every claimant
/// is paid this many parts per [`RATIO_DENOMINATOR`] of the owed amount
/// recorded in the snapshot.
pub const RATIO_NUMERATOR: u64 = 2619;

/// Denominator of the fixed campaign-wide conversion ratio.
pub const RATIO_DENOMINATOR: u64 = 10000;

/// The payout owed for a snapshot amount: `owed` scaled by the fixed
/// campaign ratio, rounded down to the smallest asset unit. This is the
/// single rounding rule of the whole campaign, applied identically to
/// every claim.
pub open spec fn payout_of(owed: u64) -> int {
    (owed as int * RATIO_NUMERATOR as int) / (RATIO_DENOMINATOR as int)
}

/// The payout never exceeds the owed amount (the ratio is below one), is
/// never negative, and a zero owed amount pays zero.
pub proof fn lemma_payout_bounds(owed: u64)
    ensures
        0 <= payout_of(owed) <= owed,
        owed == 0 ==> payout_of(owed) == 0,
{
    lemma_mul_inequality(RATIO_NUMERATOR as int, RATIO_DENOMINATOR as int, owed as int);
    lemma_div_is_ordered(
        owed as int * RATIO_NUMERATOR as int,
        owed as int * RATIO_DENOMINATOR as int,
        RATIO_DENOMINATOR as int,
    );
    lemma_div_multiples_vanish(owed as int, RATIO_DENOMINATOR as int);
    lemma_div_is_ordered(0, owed as int * RATIO_NUMERATOR as int, RATIO_DENOMINATOR as int);
}

/// Computes [`payout_of`] exactly, widening to 128 bits so that even the
/// largest representable owed amount cannot overflow.
pub fn payout_amount(owed: u64) -> (r: u64)
    ensures
        r as int == payout_of(owed),
{
    proof {
        lemma_payout_bounds(owed);
    }
    let wide: u128 = (owed as u128) * (RATIO_NUMERATOR as u128);
    (wide / (RATIO_DENOMINATOR as u128)) as u64
}

/// Creates the zeroed progress record for one claimant of a group.
/// `existing` is the group's current set of accounts: a claimant that
/// already has one is refused, so progress can never be reset by
/// re-creating the record.
pub fn create_reimbursement_account(
    existing: &Vec<ReimbursementAccount>,
    owner: Identity,
) -> (r: Result<ReimbursementAccount, Error>)
    ensures
        r is Ok <==> (forall|i: int| 0 <= i < existing@.len() ==> existing@[i].owner != owner),
        r is Ok ==> {
            let a = r->Ok_0;
            &&& a.owner == owner
            &&& !a.started
            &&& a.wf()
            &&& forall|i: int| 0 <= i < a.reimbursed@.len() ==> !a.reimbursed@[i]
        },
        r is Err ==> r == Err::<ReimbursementAccount, Error>(Error::SomeError),
{
    let n = existing.len();
    for i in 0..n
        invariant
            n == existing@.len(),
            forall|j: int| 0 <= j < i ==> existing@[j].owner != owner,
    {
        if existing[i].owner == owner {
            return Err(Error::SomeError);
        }
    }
    let mut reimbursed: Vec<bool> = Vec::new();
    while reimbursed.len() < MAX_TOKENS
        invariant
            reimbursed@.len() <= MAX_TOKENS,
            forall|i: int| 0 <= i < reimbursed@.len() ==> !reimbursed@[i],
        decreases MAX_TOKENS - reimbursed@.len(),
    {
        reimbursed.push(false);
    }
    Ok(ReimbursementAccount { owner, started: false, reimbursed })
}

/// Whether [`start_reimbursement`] is refused on this account: starting
/// is global per account and happens exactly once.
pub open spec fn start_check(account: ReimbursementAccount) -> Option<Error> {
    if account.started {
        Some(Error::ReimbursementAlreadyStarted)
    } else {
        None
    }
}

/// Opens the claim window for one account, flipping it from not-started
/// to started. A second call is refused with `ReimbursementAlreadyStarted`
/// and changes nothing; every payout requires the started state.
pub fn start_reimbursement(account: &mut ReimbursementAccount) -> (r: Result<(), Error>)
    ensures
        r is Ok <==> start_check(*old(account)) is None,
        r is Ok ==> *final(account) == (ReimbursementAccount {
            started: true,
            ..*old(account)
        }),
        r is Err ==> Some(r->Err_0) == start_check(*old(account)) && *final(account) == *old(
            account,
        ),
{
    if account.started {
        return Err(Error::ReimbursementAlreadyStarted);
    }
    account.started = true;
    Ok(())
}

/// The owed amount recorded in the snapshot for one claim: row
/// `index_into_table` of the table, asset `token_index`.
pub open spec fn owed_amount(table: Table, index_into_table: int, token_index: int) -> u64
    recommends
        0 <= index_into_table < table.rows@.len(),
        0 <= token_index < table.rows@[index_into_table].owed@.len(),
{
    table.rows@[index_into_table].owed@[token_index]
}

/// The first refusal [`reimburse`] runs into on these arguments, or
/// `None` when the payout goes through. The checks run in this order:
///
/// 1. the supplied table must be the one the group currently references,
///    and the row index must be within it (`SomeError`);
/// 2. the row's recorded owner must be the caller
///    (`TableRowHasWrongOwner`), the progress account must be the
///    caller's (`BadSigner`), and the payout destination must be owned
///    by the caller (`TokenAccountNotOwnedByMangoAccountOwner`);
/// 3. the account must have started (`ReimbursementNotStarted`) and must
///    not already hold a payout for this asset (`AlreadyReimbursed`; the
///    asset index must be one the account tracks, else `SomeError`);
/// 4. outside test mode the claim transfer must be accepted
///    (`MustTransferClaim`);
/// 5. the row must record an owed amount for this asset, the vault must
///    custody this asset, its balance must cover the payout, and the
///    credit must not overflow the destination (`SomeError` each).
pub open spec fn reimburse_check(
    group: Group,
    table: Table,
    account: ReimbursementAccount,
    vault: Vault,
    token_account: TokenAccount,
    caller: Identity,
    token_index: usize,
    index_into_table: usize,
    transfer_claim: bool,
) -> Option<Error> {
    if group.table_ref != Some(table.table_num) {
        Some(Error::SomeError)
    } else if index_into_table >= table.rows@.len() {
        Some(Error::SomeError)
    } else if table.rows@[index_into_table as int].owner != caller {
        Some(Error::TableRowHasWrongOwner)
    } else if account.owner != caller {
        Some(Error::BadSigner)
    } else if token_account.owner != caller {
        Some(Error::TokenAccountNotOwnedByMangoAccountOwner)
    } else if !account.started {
        Some(Error::ReimbursementNotStarted)
    } else if token_index >= account.reimbursed@.len() {
        Some(Error::SomeError)
    } else if account.reimbursed@[token_index as int] {
        Some(Error::AlreadyReimbursed)
    } else if !transfer_claim && !group.testing {
        Some(Error::MustTransferClaim)
    } else if token_index >= table.rows@[index_into_table as int].owed@.len() {
        Some(Error::SomeError)
    } else if vault.token_index != token_index {
        Some(Error::SomeError)
    } else if payout_of(owed_amount(table, index_into_table as int, token_index as int))
        > vault.balance {
        Some(Error::SomeError)
    } else if token_account.balance + payout_of(
        owed_amount(table, index_into_table as int, token_index as int),
    ) > u64::MAX {
        Some(Error::SomeError)
    } else {
        None
    }
}

/// The distribution engine. Pays the caller for one asset, exactly once:
/// looks up the claimant's row in the group's current table, checks
/// identity, state and policy as [`reimburse_check`] spells out, then —
/// atomically, only when every check passed — debits the vault by the
/// owed amount scaled at the fixed campaign ratio, credits the caller's
/// token account with the same amount, and records the asset as paid
/// out. On any refusal, every record is left exactly as it was.
///
/// Accepting the transfer (`transfer_claim == true`) stands for the
/// claimant's out-of-band assignment of the underlying legal claim to
/// the group's claim-transfer destination; its only effect inside the
/// engine is gating the payout.
pub fn reimburse(
    group: &Group,
    table: &Table,
    account: &mut ReimbursementAccount,
    vault: &mut Vault,
    token_account: &mut TokenAccount,
    caller: Identity,
    token_index: usize,
    index_into_table: usize,
    transfer_claim: bool,
) -> (r: Result<(), Error>)
    ensures
        r is Ok <==> reimburse_check(
            *group,
            *table,
            *old(account),
            *old(vault),
            *old(token_account),
            caller,
            token_index,
            index_into_table,
            transfer_claim,
        ) is None,
        r is Ok ==> {
            let pay = payout_of(owed_amount(*table, index_into_table as int, token_index as int));
            &&& final(vault).token_index == old(vault).token_index
            &&& final(vault).balance == old(vault).balance - pay
            &&& final(token_account).owner == old(token_account).owner
            &&& final(token_account).balance == old(token_account).balance + pay
            &&& final(account).owner == old(account).owner
            &&& final(account).started
            &&& final(account).reimbursed@ == old(account).reimbursed@.update(
                token_index as int,
                true,
            )
        },
        r is Err ==> {
            &&& Some(r->Err_0) == reimburse_check(
                *group,
                *table,
                *old(account),
                *old(vault),
                *old(token_account),
                caller,
                token_index,
                index_into_table,
                transfer_claim,
            )
            &&& *final(account) == *old(account)
            &&& *final(vault) == *old(vault)
            &&& *final(token_account) == *old(token_account)
        },
{
    let table_matches = match group.table_ref {
        Some(num) => num == table.table_num,
        None => false,
    };
    if !table_matches {
        return Err(Error::SomeError);
    }
    if index_into_table >= table.rows.len() {
        return Err(Error::SomeError);
    }
    let row = &table.rows[index_into_table];
    if row.owner != caller {
        return Err(Error::TableRowHasWrongOwner);
    }
    if account.owner != caller {
        return Err(Error::BadSigner);
    }
    if token_account.owner != caller {
        return Err(Error::TokenAccountNotOwnedByMangoAccountOwner);
    }
    if !account.started {
        return Err(Error::ReimbursementNotStarted);
    }
    if token_index >= account.reimbursed.len() {
        return Err(Error::SomeError);
    }
    if account.reimbursed[token_index] {
        return Err(Error::AlreadyReimbursed);
    }
    if !transfer_claim && !group.testing {
        return Err(Error::MustTransferClaim);
    }
    if token_index >= row.owed.len() {
        return Err(Error::SomeError);
    }
    if vault.token_index != token_index {
        return Err(Error::SomeError);
    }
    let owed = row.owed[token_index];
    let pay = payout_amount(owed);
    if pay > vault.balance {
        return Err(Error::SomeError);
    }
    let credited = token_account.balance.checked_add(pay);
    match credited {
        None => Err(Error::SomeError),
        Some(new_balance) => {
            vault.balance = vault.balance - pay;
            token_account.balance = new_balance;
            account.reimbursed[token_index] = true;
            Ok(())
        },
    }
}

} // verus!

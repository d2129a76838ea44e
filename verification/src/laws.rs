//! The campaign's financial laws, stated over the same spec functions
//! that the operations' contracts use, and proved once and for all.

use vstd::prelude::*;

use crate::engine::lemma_payout_bounds;
use crate::engine::owed_amount;
use crate::engine::payout_of;
use crate::engine::RATIO_DENOMINATOR;
use crate::engine::RATIO_NUMERATOR;
use crate::engine::reimburse_check;
use crate::engine::start_check;
use crate::error::Error;
use crate::state::Group;
use crate::state::Identity;
use crate::state::ReimbursementAccount;
use crate::state::Table;
use crate::state::TokenAccount;
use crate::state::Vault;

verus! {

/// At-most-once payout: once a `reimburse` for some (account, asset)
/// pair has succeeded, repeating the call — with any vault balance, any
/// destination balance and either claim-transfer answer — is refused
/// with `AlreadyReimbursed`. The `reimburse` contract then guarantees
/// that the refused call changes nothing, the vault balance included.
///
/// `account_after`, `vault_after` and `token_account_after` are the
/// records exactly as the successful call's contract leaves them.
pub proof fn lemma_at_most_once(
    group: Group,
    table: Table,
    account: ReimbursementAccount,
    vault: Vault,
    token_account: TokenAccount,
    caller: Identity,
    token_index: usize,
    index_into_table: usize,
    transfer_claim: bool,
    account_after: ReimbursementAccount,
    vault_after: Vault,
    token_account_after: TokenAccount,
    transfer_claim_again: bool,
)
    requires
        reimburse_check(
            group,
            table,
            account,
            vault,
            token_account,
            caller,
            token_index,
            index_into_table,
            transfer_claim,
        ) is None,
        account_after.owner == account.owner,
        account_after.started,
        account_after.reimbursed@ == account.reimbursed@.update(token_index as int, true),
        token_account_after.owner == token_account.owner,
    ensures
        reimburse_check(
            group,
            table,
            account_after,
            vault_after,
            token_account_after,
            caller,
            token_index,
            index_into_table,
            transfer_claim_again,
        ) == Some(Error::AlreadyReimbursed),
{
    assert(account_after.reimbursed@[token_index as int]);
}

/// The running balance of a vault that starts at `balance` and honours
/// the payouts in `s`, in order.
pub open spec fn balance_after_payouts(balance: int, s: Seq<int>) -> int
    decreases s.len(),
{
    if s.len() == 0 {
        balance
    } else {
        balance_after_payouts(balance - s[0], s.drop_first())
    }
}

/// The sum of a series of payouts.
pub open spec fn sum_payouts(s: Seq<int>) -> int
    decreases s.len(),
{
    if s.len() == 0 {
        0
    } else {
        s[0] + sum_payouts(s.drop_first())
    }
}

/// Whether every payout in `s`, taken in order from a vault that starts
/// at `balance`, is a payout `reimburse` could have made: non-negative
/// and covered by the balance at its moment — exactly the cover check of
/// [`reimburse_check`].
pub open spec fn payouts_feasible(balance: int, s: Seq<int>) -> bool
    decreases s.len(),
{
    s.len() == 0 || (0 <= s[0] <= balance && payouts_feasible(balance - s[0], s.drop_first()))
}

/// Conservation: a series of successful payouts drains the vault by
/// exactly its sum, and that sum never exceeds what the vault held to
/// begin with — payouts can never move more than was deposited.
pub proof fn lemma_conservation(balance: int, s: Seq<int>)
    requires
        balance >= 0,
        payouts_feasible(balance, s),
    ensures
        balance_after_payouts(balance, s) == balance - sum_payouts(s),
        0 <= sum_payouts(s) <= balance,
    decreases s.len(),
{
    if s.len() > 0 {
        lemma_conservation(balance - s[0], s.drop_first());
    }
}

/// Every payout the engine lets through is one [`payouts_feasible`]
/// admits: non-negative and covered by the vault balance at its moment.
/// Together with [`lemma_conservation`] this bounds any series of
/// successful payouts by what the vault held.
pub proof fn lemma_successful_payout_is_feasible(
    group: Group,
    table: Table,
    account: ReimbursementAccount,
    vault: Vault,
    token_account: TokenAccount,
    caller: Identity,
    token_index: usize,
    index_into_table: usize,
    transfer_claim: bool,
)
    requires
        reimburse_check(
            group,
            table,
            account,
            vault,
            token_account,
            caller,
            token_index,
            index_into_table,
            transfer_claim,
        ) is None,
    ensures
        0 <= payout_of(
            owed_amount(table, index_into_table as int, token_index as int),
        ) <= vault.balance,
{
    lemma_payout_bounds(
        owed_amount(table, index_into_table as int, token_index as int),
    );
}

/// Sequencing, first half: before `start_reimbursement` has succeeded,
/// `reimburse` is refused with `ReimbursementNotStarted` — whatever the
/// asset, the vault, the balances and the claim-transfer answer — as
/// long as the earlier identity checks do not fail first.
pub proof fn lemma_reimburse_before_start(
    group: Group,
    table: Table,
    account: ReimbursementAccount,
    vault: Vault,
    token_account: TokenAccount,
    caller: Identity,
    token_index: usize,
    index_into_table: usize,
    transfer_claim: bool,
)
    requires
        group.table_ref == Some(table.table_num),
        index_into_table < table.rows@.len(),
        table.rows@[index_into_table as int].owner == caller,
        account.owner == caller,
        token_account.owner == caller,
        !account.started,
    ensures
        reimburse_check(
            group,
            table,
            account,
            vault,
            token_account,
            caller,
            token_index,
            index_into_table,
            transfer_claim,
        ) == Some(Error::ReimbursementNotStarted),
{
}

/// Sequencing, second half: after a successful `start_reimbursement`,
/// starting again is refused with `ReimbursementAlreadyStarted`.
/// `account_after` is the record exactly as the successful call's
/// contract leaves it.
pub proof fn lemma_start_twice(account: ReimbursementAccount, account_after: ReimbursementAccount)
    requires
        start_check(account) is None,
        account_after == (ReimbursementAccount { started: true, ..account }),
    ensures
        start_check(account_after) == Some(Error::ReimbursementAlreadyStarted),
{
}

/// Identity binding: when the row named by `index_into_table` belongs to
/// someone other than the caller, `reimburse` is refused with
/// `TableRowHasWrongOwner`, regardless of every other parameter and of
/// the state of every other record.
pub proof fn lemma_identity_binding(
    group: Group,
    table: Table,
    account: ReimbursementAccount,
    vault: Vault,
    token_account: TokenAccount,
    caller: Identity,
    token_index: usize,
    index_into_table: usize,
    transfer_claim: bool,
)
    requires
        group.table_ref == Some(table.table_num),
        index_into_table < table.rows@.len(),
        table.rows@[index_into_table as int].owner != caller,
    ensures
        reimburse_check(
            group,
            table,
            account,
            vault,
            token_account,
            caller,
            token_index,
            index_into_table,
            transfer_claim,
        ) == Some(Error::TableRowHasWrongOwner),
{
}

/// Determinism of the ratio: the payout for an owed amount is a pure
/// function of that amount — `owed` scaled by the fixed campaign ratio,
/// rounded down, every time. Zero owes zero, and even the largest
/// representable owed amount stays representable after scaling.
pub proof fn lemma_ratio_determinism(owed: u64)
    ensures
        payout_of(owed) == (owed as int * RATIO_NUMERATOR as int) / (RATIO_DENOMINATOR as int),
        owed == 0 ==> payout_of(owed) == 0,
        0 <= payout_of(owed) <= owed,
{
    lemma_payout_bounds(owed);
}

} // verus!

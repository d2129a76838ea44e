use cypher_v3_reimbursement::create_group;
use cypher_v3_reimbursement::create_reimbursement_account;
use cypher_v3_reimbursement::create_table;
use cypher_v3_reimbursement::engine::payout_amount;
use cypher_v3_reimbursement::reimburse;
use cypher_v3_reimbursement::start_reimbursement;
use cypher_v3_reimbursement::Error;
use cypher_v3_reimbursement::Group;
use cypher_v3_reimbursement::Identity;
use cypher_v3_reimbursement::ReimbursementAccount;
use cypher_v3_reimbursement::Row;
use cypher_v3_reimbursement::Table;
use cypher_v3_reimbursement::TokenAccount;
use cypher_v3_reimbursement::Vault;

fn claimant() -> Identity {
    Identity { key: 7 }
}

fn authority() -> Identity {
    Identity { key: 1 }
}

/// A campaign with one table row (owner = claimant, token 0, owed 1000),
/// vault 0 funded with 1000 units, and a started claimant account.
fn campaign(testing: u8) -> (Group, Table, ReimbursementAccount, Vault, TokenAccount) {
    let mut group = create_group(42, Identity { key: 2 }, testing, authority());
    let mut table = create_table(&Vec::new(), 5).unwrap();
    cypher_v3_reimbursement::add_rows(
        &mut table,
        vec![Row { owner: claimant(), owed: vec![1000] }],
    )
    .unwrap();
    cypher_v3_reimbursement::edit_group(&mut group, authority(), 5).unwrap();
    let mut vault = cypher_v3_reimbursement::create_vault(&Vec::new(), 0).unwrap();
    vault.balance = 1000;
    let mut account = create_reimbursement_account(&Vec::new(), claimant()).unwrap();
    start_reimbursement(&mut account).unwrap();
    let token_account = TokenAccount { owner: claimant(), balance: 0 };
    (group, table, account, vault, token_account)
}

#[test]
fn payout_formula_exact_values() {
    assert_eq!(payout_amount(0), 0);
    assert_eq!(payout_amount(1000), 261);
    assert_eq!(payout_amount(3), 0);
    assert_eq!(payout_amount(10000), 2619);
    assert_eq!(payout_amount(u64::MAX), 4831202272904531567);
}

#[test]
fn successful_reimburse_pays_at_fixed_ratio() {
    let (group, table, mut account, mut vault, mut token_account) = campaign(0);
    let r = reimburse(&group, &table, &mut account, &mut vault, &mut token_account, claimant(), 0, 0, true);
    assert_eq!(r, Ok(()));
    assert_eq!(vault.balance, 739);
    assert_eq!(token_account.balance, 261);
    assert!(account.reimbursed[0]);
}

#[test]
fn repeated_reimburse_is_refused_and_changes_nothing() {
    let (group, table, mut account, mut vault, mut token_account) = campaign(0);
    reimburse(&group, &table, &mut account, &mut vault, &mut token_account, claimant(), 0, 0, true)
        .unwrap();
    let r = reimburse(&group, &table, &mut account, &mut vault, &mut token_account, claimant(), 0, 0, true);
    assert_eq!(r, Err(Error::AlreadyReimbursed));
    assert_eq!(vault.balance, 739);
    assert_eq!(token_account.balance, 261);
    assert!(account.reimbursed[0]);
}

#[test]
fn refusing_claim_transfer_is_refused_without_state_change() {
    let (group, table, mut account, mut vault, mut token_account) = campaign(0);
    let r = reimburse(&group, &table, &mut account, &mut vault, &mut token_account, claimant(), 0, 0, false);
    assert_eq!(r, Err(Error::MustTransferClaim));
    assert_eq!(vault.balance, 1000);
    assert_eq!(token_account.balance, 0);
    assert!(!account.reimbursed[0]);
    assert!(account.started);
}

#[test]
fn testing_group_waives_claim_transfer() {
    let (group, table, mut account, mut vault, mut token_account) = campaign(3);
    let r = reimburse(&group, &table, &mut account, &mut vault, &mut token_account, claimant(), 0, 0, false);
    assert_eq!(r, Ok(()));
    assert_eq!(vault.balance, 739);
    assert_eq!(token_account.balance, 261);
}

#[test]
fn reimburse_before_start_is_refused() {
    let (group, table, _, mut vault, mut token_account) = campaign(0);
    let mut fresh = create_reimbursement_account(&Vec::new(), claimant()).unwrap();
    let r = reimburse(&group, &table, &mut fresh, &mut vault, &mut token_account, claimant(), 0, 0, true);
    assert_eq!(r, Err(Error::ReimbursementNotStarted));
    assert_eq!(vault.balance, 1000);
    assert!(!fresh.started);
}

#[test]
fn starting_twice_is_refused_the_second_time() {
    let mut account = create_reimbursement_account(&Vec::new(), claimant()).unwrap();
    assert_eq!(start_reimbursement(&mut account), Ok(()));
    assert!(account.started);
    assert_eq!(start_reimbursement(&mut account), Err(Error::ReimbursementAlreadyStarted));
    assert!(account.started);
}

#[test]
fn wrong_row_owner_is_refused_whatever_else_holds() {
    let (group, table, mut account, mut vault, mut token_account) = campaign(0);
    let stranger = Identity { key: 99 };
    account.owner = stranger;
    token_account.owner = stranger;
    let r = reimburse(&group, &table, &mut account, &mut vault, &mut token_account, stranger, 0, 0, true);
    assert_eq!(r, Err(Error::TableRowHasWrongOwner));
    assert_eq!(vault.balance, 1000);
}

#[test]
fn account_of_someone_else_is_refused() {
    let (group, table, mut account, mut vault, mut token_account) = campaign(0);
    account.owner = Identity { key: 99 };
    let r = reimburse(&group, &table, &mut account, &mut vault, &mut token_account, claimant(), 0, 0, true);
    assert_eq!(r, Err(Error::BadSigner));
    assert_eq!(vault.balance, 1000);
}

#[test]
fn foreign_token_account_is_refused() {
    let (group, table, mut account, mut vault, mut token_account) = campaign(0);
    token_account.owner = Identity { key: 99 };
    let r = reimburse(&group, &table, &mut account, &mut vault, &mut token_account, claimant(), 0, 0, true);
    assert_eq!(r, Err(Error::TokenAccountNotOwnedByMangoAccountOwner));
    assert_eq!(vault.balance, 1000);
    assert_eq!(token_account.balance, 0);
}

#[test]
fn stale_table_is_refused() {
    let (mut group, table, mut account, mut vault, mut token_account) = campaign(0);
    cypher_v3_reimbursement::edit_group(&mut group, authority(), 6).unwrap();
    let r = reimburse(&group, &table, &mut account, &mut vault, &mut token_account, claimant(), 0, 0, true);
    assert_eq!(r, Err(Error::SomeError));
    assert_eq!(vault.balance, 1000);
}

#[test]
fn row_index_out_of_range_is_refused() {
    let (group, table, mut account, mut vault, mut token_account) = campaign(0);
    let r = reimburse(&group, &table, &mut account, &mut vault, &mut token_account, claimant(), 0, 1, true);
    assert_eq!(r, Err(Error::SomeError));
    assert_eq!(vault.balance, 1000);
}

#[test]
fn vault_for_wrong_asset_is_refused() {
    let (group, table, mut account, mut vault, mut token_account) = campaign(0);
    vault.token_index = 1;
    let r = reimburse(&group, &table, &mut account, &mut vault, &mut token_account, claimant(), 0, 0, true);
    assert_eq!(r, Err(Error::SomeError));
    assert_eq!(vault.balance, 1000);
}

#[test]
fn underfunded_vault_is_refused() {
    let (group, table, mut account, mut vault, mut token_account) = campaign(0);
    vault.balance = 260;
    let r = reimburse(&group, &table, &mut account, &mut vault, &mut token_account, claimant(), 0, 0, true);
    assert_eq!(r, Err(Error::SomeError));
    assert_eq!(vault.balance, 260);
    assert!(!account.reimbursed[0]);
}

#[test]
fn overflowing_credit_is_refused() {
    let (group, table, mut account, mut vault, mut token_account) = campaign(0);
    token_account.balance = u64::MAX;
    let r = reimburse(&group, &table, &mut account, &mut vault, &mut token_account, claimant(), 0, 0, true);
    assert_eq!(r, Err(Error::SomeError));
    assert_eq!(vault.balance, 1000);
    assert_eq!(token_account.balance, u64::MAX);
}

#[test]
fn zero_owed_amount_pays_zero() {
    let (group, mut table, mut account, mut vault, mut token_account) = campaign(0);
    table.rows[0].owed[0] = 0;
    let r = reimburse(&group, &table, &mut account, &mut vault, &mut token_account, claimant(), 0, 0, true);
    assert_eq!(r, Ok(()));
    assert_eq!(vault.balance, 1000);
    assert_eq!(token_account.balance, 0);
    assert!(account.reimbursed[0]);
}

#[test]
fn payouts_from_one_vault_never_exceed_its_deposits() {
    let (group, mut table, mut account, mut vault, mut token_account) = campaign(0);
    let second = Identity { key: 8 };
    cypher_v3_reimbursement::add_rows(&mut table, vec![Row { owner: second, owed: vec![500] }])
        .unwrap();
    reimburse(&group, &table, &mut account, &mut vault, &mut token_account, claimant(), 0, 0, true)
        .unwrap();
    let mut account2 = create_reimbursement_account(&Vec::new(), second).unwrap();
    start_reimbursement(&mut account2).unwrap();
    let mut token_account2 = TokenAccount { owner: second, balance: 0 };
    reimburse(&group, &table, &mut account2, &mut vault, &mut token_account2, second, 0, 1, true)
        .unwrap();
    assert_eq!(token_account.balance + token_account2.balance, 261 + 130);
    assert_eq!(vault.balance, 1000 - 261 - 130);
}

#[test]
fn assets_are_reimbursed_independently() {
    let (group, mut table, mut account, mut vault, mut token_account) = campaign(0);
    table.rows[0].owed = vec![1000, 500];
    reimburse(&group, &table, &mut account, &mut vault, &mut token_account, claimant(), 0, 0, true)
        .unwrap();
    let mut vault1 = cypher_v3_reimbursement::create_vault(&Vec::new(), 1).unwrap();
    vault1.balance = 500;
    let r = reimburse(&group, &table, &mut account, &mut vault1, &mut token_account, claimant(), 1, 0, true);
    assert_eq!(r, Ok(()));
    assert_eq!(vault1.balance, 500 - 130);
    assert_eq!(token_account.balance, 261 + 130);
    assert!(account.reimbursed[0] && account.reimbursed[1]);
}

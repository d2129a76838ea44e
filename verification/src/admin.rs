//! Campaign administration: creating and reconfiguring groups, building
//! snapshot tables, provisioning vaults, and the authority-only emergency
//! sweep of a vault's remaining balance.

use vstd::prelude::*;

use crate::error::Error;
use crate::state::Group;
use crate::state::Identity;
use crate::state::Row;
use crate::state::Table;
use crate::state::TokenAccount;
use crate::state::Vault;

verus! {

/// Creates the scoping record of a new campaign. The caller that signed
/// the creation becomes the administrative authority; `testing` is taken
/// as a raw flag byte, any nonzero value enabling test mode. No table is
/// attached yet: [`edit_group`] does that.
pub fn create_group(
    group_num: u32,
    claim_transfer_destination: Identity,
    testing: u8,
    authority: Identity,
) -> (g: Group)
    ensures
        g.group_num == group_num,
        g.authority == authority,
        g.claim_transfer_destination == claim_transfer_destination,
        g.testing == (testing != 0),
        g.table_ref is None,
{
    Group {
        group_num,
        authority,
        claim_transfer_destination,
        testing: testing != 0,
        table_ref: None,
    }
}

/// Re-points a group at a different table, for instance to roll forward
/// to a corrected snapshot. Only the group authority may do this; anyone
/// else is refused with `BadSigner` and the group is left unchanged.
pub fn edit_group(group: &mut Group, signer: Identity, table: u32) -> (r: Result<(), Error>)
    ensures
        r is Ok <==> signer == old(group).authority,
        r is Ok ==> *final(group) == (Group { table_ref: Some(table), ..*old(group) }),
        r is Err ==> r == Err::<(), Error>(Error::BadSigner) && *final(group) == *old(group),
{
    if signer != group.authority {
        return Err(Error::BadSigner);
    }
    group.table_ref = Some(table);
    Ok(())
}

/// Hands administrative control of a group to a new authority. Must be
/// signed by the current authority; anyone else is refused with
/// `BadSigner` and the group is left unchanged.
pub fn change_authority(group: &mut Group, signer: Identity, new_authority: Identity) -> (r:
    Result<(), Error>)
    ensures
        r is Ok <==> signer == old(group).authority,
        r is Ok ==> *final(group) == (Group { authority: new_authority, ..*old(group) }),
        r is Err ==> r == Err::<(), Error>(Error::BadSigner) && *final(group) == *old(group),
{
    if signer != group.authority {
        return Err(Error::BadSigner);
    }
    group.authority = new_authority;
    Ok(())
}

/// Allocates an empty, uniquely numbered table for a group. `existing`
/// is the group's current set of tables; a duplicate number is refused
/// so that no two live tables can be confused with one another.
pub fn create_table(existing: &Vec<Table>, table_num: u32) -> (r: Result<Table, Error>)
    ensures
        r is Ok <==> (forall|i: int|
            0 <= i < existing@.len() ==> existing@[i].table_num != table_num),
        r is Ok ==> r->Ok_0.table_num == table_num && r->Ok_0.rows@ =~= Seq::<Row>::empty(),
        r is Err ==> r == Err::<Table, Error>(Error::SomeError),
{
    let n = existing.len();
    for i in 0..n
        invariant
            n == existing@.len(),
            forall|j: int| 0 <= j < i ==> existing@[j].table_num != table_num,
    {
        if existing[i].table_num == table_num {
            return Err(Error::SomeError);
        }
    }
    Ok(Table { table_num, rows: Vec::new() })
}

/// Appends a batch of row snapshots to a table, in order, preserving
/// everything already there. Tables are built incrementally from small
/// batches; uniqueness of (owner, asset) across a live table is the
/// operator's construction-time responsibility, not re-checked here.
pub fn add_rows(table: &mut Table, rows: Vec<Row>) -> (r: Result<(), Error>)
    ensures
        r is Ok,
        final(table).table_num == old(table).table_num,
        final(table).rows@ == old(table).rows@ + rows@,
{
    let mut batch = rows;
    table.rows.append(&mut batch);
    Ok(())
}

/// Provisions a custody record for one asset class under a group.
/// `existing` is the group's current set of vaults; a duplicate asset
/// index is refused so that each asset has a single custody record.
/// A new vault starts empty; deposits are external to the engine.
pub fn create_vault(existing: &Vec<Vault>, token_index: usize) -> (r: Result<Vault, Error>)
    ensures
        r is Ok <==> (forall|i: int|
            0 <= i < existing@.len() ==> existing@[i].token_index != token_index),
        r is Ok ==> r->Ok_0 == (Vault { token_index, balance: 0u64 }),
        r is Err ==> r == Err::<Vault, Error>(Error::SomeError),
{
    let n = existing.len();
    for i in 0..n
        invariant
            n == existing@.len(),
            forall|j: int| 0 <= j < i ==> existing@[j].token_index != token_index,
    {
        if existing[i].token_index == token_index {
            return Err(Error::SomeError);
        }
    }
    Ok(Vault { token_index, balance: 0 })
}

/// The first refusal [`withdraw_to_authority`] runs into on these
/// arguments, or `None` when the sweep goes through. Checked in order:
/// the signer must be the group authority (`BadSigner`); the vault must
/// custody the named asset, the destination must belong to the authority,
/// and the credit must not overflow the destination (`SomeError` each).
pub open spec fn withdraw_check(
    group: Group,
    vault: Vault,
    destination: TokenAccount,
    signer: Identity,
    token_index: usize,
) -> Option<Error> {
    if signer != group.authority {
        Some(Error::BadSigner)
    } else if vault.token_index != token_index {
        Some(Error::SomeError)
    } else if destination.owner != group.authority {
        Some(Error::SomeError)
    } else if destination.balance + vault.balance > u64::MAX {
        Some(Error::SomeError)
    } else {
        None
    }
}

/// Administrative sweep: moves a vault's entire remaining balance to the
/// group authority's own token account, draining the vault to zero. This
/// is the escape valve for closing out a campaign; it never consults any
/// claimant's progress record. On any refusal, nothing changes.
pub fn withdraw_to_authority(
    group: &Group,
    vault: &mut Vault,
    destination: &mut TokenAccount,
    signer: Identity,
    token_index: usize,
) -> (r: Result<(), Error>)
    ensures
        r is Ok <==> withdraw_check(*group, *old(vault), *old(destination), signer, token_index)
            is None,
        r is Ok ==> {
            &&& *final(vault) == (Vault { balance: 0u64, ..*old(vault) })
            &&& *final(destination) == (TokenAccount {
                balance: (old(destination).balance + old(vault).balance) as u64,
                ..*old(destination)
            })
        },
        r is Err ==> {
            &&& Some(r->Err_0) == withdraw_check(
                *group,
                *old(vault),
                *old(destination),
                signer,
                token_index,
            )
            &&& *final(vault) == *old(vault)
            &&& *final(destination) == *old(destination)
        },
{
    if signer != group.authority {
        return Err(Error::BadSigner);
    }
    if vault.token_index != token_index {
        return Err(Error::SomeError);
    }
    if destination.owner != group.authority {
        return Err(Error::SomeError);
    }
    let credited = destination.balance.checked_add(vault.balance);
    match credited {
        None => Err(Error::SomeError),
        Some(new_balance) => {
            destination.balance = new_balance;
            vault.balance = 0;
            Ok(())
        },
    }
}

} // verus!

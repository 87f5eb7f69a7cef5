//! The operations on a vault: create it, then add, update and delete entries.
//!
//! Each operation is applied in full or not at all. Every check is made
//! before anything is changed, and a refused operation leaves its context as
//! it was.

use crate::digest::{sha256, sha256_digest};
use crate::error::CustomError;
use crate::identity::Pubkey;
use crate::layout::{MAX_ENTRIES, MAX_SIZE};
use crate::vault::{lemma_vault_fits_budget, EntryView, PasswordEntry, PasswordVault, VaultView};
use vstd::prelude::*;
use vstd::utf8::encode_utf8;

verus! {

/// What the creation of a vault works on: the slot at the address of the
/// user's vault, empty until a vault is created there, and the user.
pub struct InitializeVault {
    pub vault: Option<PasswordVault>,
    pub user: Pubkey,
}

/// What the addition of an entry works on: a vault and the calling user.
pub struct AddEntry {
    pub vault: PasswordVault,
    pub user: Pubkey,
}

/// What the update of an entry works on: a vault and the calling user.
pub struct UpdateEntry {
    pub vault: PasswordVault,
    pub user: Pubkey,
}

/// What the deletion of an entry works on: a vault and the calling user.
pub struct DeleteEntry {
    pub vault: PasswordVault,
    pub user: Pubkey,
}

/// The vault that creation makes: it belongs to `owner`, stores
/// `master_hash`, and has no entries.
pub open spec fn created_vault(owner: Seq<u8>, master_hash: Seq<u8>) -> VaultView {
    VaultView { owner, master_hash, entries: Seq::empty() }
}

/// Creation, as a step from the slot before to the slot after, with the
/// answer given to the caller. An occupied slot is left alone.
pub open spec fn initialize_step(
    slot: Option<VaultView>,
    user: Seq<u8>,
    master_hash: Seq<u8>,
) -> (Option<VaultView>, Result<(), CustomError>) {
    if slot is Some {
        (slot, Err(CustomError::AlreadyExists))
    } else {
        (Some(created_vault(user, master_hash)), Ok(()))
    }
}

/// Addition, as a step from the vault before to the vault after, with the
/// answer given to the caller. The new entry goes behind the others.
pub open spec fn add_entry_step(vault: VaultView, caller: Seq<u8>, entry: EntryView) -> (
    VaultView,
    Result<(), CustomError>,
) {
    if caller != vault.owner {
        (vault, Err(CustomError::Unauthorized))
    } else if vault.entries.len() >= MAX_ENTRIES {
        (vault, Err(CustomError::CapacityExceeded))
    } else if !entry.within_caps() {
        (vault, Err(CustomError::FieldTooLong))
    } else {
        (VaultView { entries: vault.entries.push(entry), ..vault }, Ok(()))
    }
}

/// Update, as a step from the vault before to the vault after, with the
/// answer given to the caller. The entry at `index` is replaced as a whole.
pub open spec fn update_entry_step(
    vault: VaultView,
    caller: Seq<u8>,
    index: nat,
    entry: EntryView,
) -> (VaultView, Result<(), CustomError>) {
    if caller != vault.owner {
        (vault, Err(CustomError::Unauthorized))
    } else if index >= vault.entries.len() {
        (vault, Err(CustomError::InvalidIndex))
    } else if !entry.within_caps() {
        (vault, Err(CustomError::FieldTooLong))
    } else {
        (VaultView { entries: vault.entries.update(index as int, entry), ..vault }, Ok(()))
    }
}

/// Deletion, as a step from the vault before to the vault after, with the
/// answer given to the caller. The entries behind `index` move up by one.
pub open spec fn delete_entry_step(vault: VaultView, caller: Seq<u8>, index: nat) -> (
    VaultView,
    Result<(), CustomError>,
) {
    if caller != vault.owner {
        (vault, Err(CustomError::Unauthorized))
    } else if index >= vault.entries.len() {
        (vault, Err(CustomError::InvalidIndex))
    } else {
        (VaultView { entries: vault.entries.remove(index as int), ..vault }, Ok(()))
    }
}

/// The slot of a creation context, as the step function sees it.
pub open spec fn slot_view(slot: Option<PasswordVault>) -> Option<VaultView> {
    match slot {
        Some(vault) => Some(vault@),
        None => None,
    }
}

/// Creates the vault of `ctx.user` with a digest that was computed already.
/// Fails with `AlreadyExists`, changing nothing, if the slot holds a vault.
pub fn initialize_vault_with_hash(ctx: &mut InitializeVault, master_hash: [u8; 32]) -> (result:
    Result<(), CustomError>)
    ensures
        final(ctx).user == old(ctx).user,
        result == initialize_step(slot_view(old(ctx).vault), old(ctx).user@, master_hash@).1,
        slot_view(final(ctx).vault) == initialize_step(
            slot_view(old(ctx).vault),
            old(ctx).user@,
            master_hash@,
        ).0,
        result is Err ==> *final(ctx) == *old(ctx),
{
    if ctx.vault.is_some() {
        return Err(CustomError::AlreadyExists);
    }
    let vault = PasswordVault { owner: ctx.user, master_hash, entries: Vec::new() };
    assert(vault@.entries =~= Seq::empty());
    ctx.vault = Some(vault);
    Ok(())
}

/// Creates the vault of `ctx.user`: the user becomes its owner, it stores
/// the SHA-256 digest of the master password's bytes, and it has no entries.
/// Fails with `AlreadyExists`, changing nothing, if the slot holds a vault.
/// The bump seed of the address is the host's affair and changes nothing in
/// the vault.
pub fn initialize_vault(ctx: &mut InitializeVault, _bump: u8, master_password: String) -> (result:
    Result<(), CustomError>)
    ensures
        final(ctx).user == old(ctx).user,
        result == initialize_step(
            slot_view(old(ctx).vault),
            old(ctx).user@,
            sha256(encode_utf8(master_password@)),
        ).1,
        slot_view(final(ctx).vault) == initialize_step(
            slot_view(old(ctx).vault),
            old(ctx).user@,
            sha256(encode_utf8(master_password@)),
        ).0,
        result is Err ==> *final(ctx) == *old(ctx),
{
    let master_hash = sha256_digest(master_password.as_str().as_bytes());
    initialize_vault_with_hash(ctx, master_hash)
}

/// Appends an entry to the vault. Fails, changing nothing, with
/// `Unauthorized` if the user is not the owner, else with `CapacityExceeded`
/// if the vault is full, else with `FieldTooLong` if a field exceeds its cap.
pub fn add_entry(ctx: &mut AddEntry, title: String, username: String, password: String) -> (result:
    Result<(), CustomError>)
    ensures
        final(ctx).user == old(ctx).user,
        result == add_entry_step(
            old(ctx).vault@,
            old(ctx).user@,
            (EntryView { title: title@, username: username@, password: password@ }),
        ).1,
        final(ctx).vault@ == add_entry_step(
            old(ctx).vault@,
            old(ctx).user@,
            (EntryView { title: title@, username: username@, password: password@ }),
        ).0,
        result is Err ==> *final(ctx) == *old(ctx),
        old(ctx).vault@.wf() ==> final(ctx).vault@.wf(),
{
    proof {
        if ctx.vault@.wf() {
            lemma_add_preserves_wf(
                ctx.vault@,
                ctx.user@,
                (EntryView { title: title@, username: username@, password: password@ }),
            );
        }
    }
    if !(ctx.vault.owner == ctx.user) {
        return Err(CustomError::Unauthorized);
    }
    if ctx.vault.entries.len() >= MAX_ENTRIES {
        return Err(CustomError::CapacityExceeded);
    }
    let entry = PasswordEntry { title, username, password };
    if !entry.within_caps() {
        return Err(CustomError::FieldTooLong);
    }
    ctx.vault.entries.push(entry);
    assert(ctx.vault@.entries =~= old(ctx).vault@.entries.push(entry@));
    Ok(())
}

/// Replaces the three fields of the entry at `index`. Fails, changing
/// nothing, with `Unauthorized` if the user is not the owner, else with
/// `InvalidIndex` if the vault has no entry at `index`, else with
/// `FieldTooLong` if a new field exceeds its cap.
pub fn update_entry(
    ctx: &mut UpdateEntry,
    index: u32,
    new_title: String,
    new_username: String,
    new_password: String,
) -> (result: Result<(), CustomError>)
    ensures
        final(ctx).user == old(ctx).user,
        result == update_entry_step(
            old(ctx).vault@,
            old(ctx).user@,
            index as nat,
            (EntryView { title: new_title@, username: new_username@, password: new_password@ }),
        ).1,
        final(ctx).vault@ == update_entry_step(
            old(ctx).vault@,
            old(ctx).user@,
            index as nat,
            (EntryView { title: new_title@, username: new_username@, password: new_password@ }),
        ).0,
        result is Err ==> *final(ctx) == *old(ctx),
        old(ctx).vault@.wf() ==> final(ctx).vault@.wf(),
{
    proof {
        if ctx.vault@.wf() {
            lemma_update_preserves_wf(
                ctx.vault@,
                ctx.user@,
                index as nat,
                (EntryView { title: new_title@, username: new_username@, password: new_password@ }),
            );
        }
    }
    if !(ctx.vault.owner == ctx.user) {
        return Err(CustomError::Unauthorized);
    }
    let i = index as usize;
    if i >= ctx.vault.entries.len() {
        return Err(CustomError::InvalidIndex);
    }
    let entry = PasswordEntry { title: new_title, username: new_username, password: new_password };
    if !entry.within_caps() {
        return Err(CustomError::FieldTooLong);
    }
    ctx.vault.entries[i] = entry;
    assert(ctx.vault@.entries =~= old(ctx).vault@.entries.update(i as int, entry@));
    Ok(())
}

/// Removes the entry at `index`; the entries behind it move up by one.
/// Fails, changing nothing, with `Unauthorized` if the user is not the
/// owner, else with `InvalidIndex` if the vault has no entry at `index`.
pub fn delete_entry(ctx: &mut DeleteEntry, index: u32) -> (result: Result<(), CustomError>)
    ensures
        final(ctx).user == old(ctx).user,
        result == delete_entry_step(old(ctx).vault@, old(ctx).user@, index as nat).1,
        final(ctx).vault@ == delete_entry_step(old(ctx).vault@, old(ctx).user@, index as nat).0,
        result is Err ==> *final(ctx) == *old(ctx),
        old(ctx).vault@.wf() ==> final(ctx).vault@.wf(),
{
    proof {
        if ctx.vault@.wf() {
            lemma_delete_preserves_wf(ctx.vault@, ctx.user@, index as nat);
        }
    }
    if !(ctx.vault.owner == ctx.user) {
        return Err(CustomError::Unauthorized);
    }
    let i = index as usize;
    if i >= ctx.vault.entries.len() {
        return Err(CustomError::InvalidIndex);
    }
    ctx.vault.entries.remove(i);
    assert(ctx.vault@.entries =~= old(ctx).vault@.entries.remove(i as int));
    Ok(())
}

/// The vault after the given entries were added one by one, each addition
/// made by `caller`.
pub open spec fn after_additions(vault: VaultView, caller: Seq<u8>, entries: Seq<EntryView>) -> VaultView
    decreases entries.len(),
{
    if entries.len() == 0 {
        vault
    } else {
        add_entry_step(after_additions(vault, caller, entries.drop_last()), caller, entries.last()).0
    }
}

/// A step never reassigns the owner of a vault and never touches the stored
/// digest.
pub proof fn lemma_steps_keep_owner_and_hash(
    vault: VaultView,
    caller: Seq<u8>,
    index: nat,
    entry: EntryView,
)
    ensures
        add_entry_step(vault, caller, entry).0.owner == vault.owner,
        add_entry_step(vault, caller, entry).0.master_hash == vault.master_hash,
        update_entry_step(vault, caller, index, entry).0.owner == vault.owner,
        update_entry_step(vault, caller, index, entry).0.master_hash == vault.master_hash,
        delete_entry_step(vault, caller, index).0.owner == vault.owner,
        delete_entry_step(vault, caller, index).0.master_hash == vault.master_hash,
{
}

/// A new vault is well formed and fits its record.
pub proof fn lemma_created_vault_wf(owner: Seq<u8>, master_hash: Seq<u8>)
    ensures
        created_vault(owner, master_hash).wf(),
        created_vault(owner, master_hash).serialized_len() <= MAX_SIZE,
{
    lemma_vault_fits_budget(created_vault(owner, master_hash));
}

/// An addition leaves a well-formed vault well formed: the vault never holds
/// more than `MAX_ENTRIES` entries, nor a field longer than its cap, and so
/// never outgrows its record.
pub proof fn lemma_add_preserves_wf(vault: VaultView, caller: Seq<u8>, entry: EntryView)
    requires
        vault.wf(),
    ensures
        add_entry_step(vault, caller, entry).0.wf(),
        add_entry_step(vault, caller, entry).0.serialized_len() <= MAX_SIZE,
{
    let after = add_entry_step(vault, caller, entry).0;
    assert forall|i: int| 0 <= i < after.entries.len() implies (
    #[trigger] after.entries[i]).within_caps() by {
        if i < vault.entries.len() {
            assert(vault.entries[i].within_caps());
        }
    }
    lemma_vault_fits_budget(after);
}

/// An update leaves a well-formed vault well formed.
pub proof fn lemma_update_preserves_wf(
    vault: VaultView,
    caller: Seq<u8>,
    index: nat,
    entry: EntryView,
)
    requires
        vault.wf(),
    ensures
        update_entry_step(vault, caller, index, entry).0.wf(),
        update_entry_step(vault, caller, index, entry).0.serialized_len() <= MAX_SIZE,
{
    let after = update_entry_step(vault, caller, index, entry).0;
    assert forall|i: int| 0 <= i < after.entries.len() implies (
    #[trigger] after.entries[i]).within_caps() by {
        assert(vault.entries[i].within_caps());
    }
    lemma_vault_fits_budget(after);
}

/// A deletion leaves a well-formed vault well formed.
pub proof fn lemma_delete_preserves_wf(vault: VaultView, caller: Seq<u8>, index: nat)
    requires
        vault.wf(),
    ensures
        delete_entry_step(vault, caller, index).0.wf(),
        delete_entry_step(vault, caller, index).0.serialized_len() <= MAX_SIZE,
{
    let after = delete_entry_step(vault, caller, index).0;
    assert forall|i: int| 0 <= i < after.entries.len() implies (
    #[trigger] after.entries[i]).within_caps() by {
        if delete_entry_step(vault, caller, index).1 is Ok && i >= index {
            assert(vault.entries[i + 1].within_caps());
        } else {
            assert(vault.entries[i].within_caps());
        }
    }
    lemma_vault_fits_budget(after);
}

/// Whatever the slot held, a second creation in it fails with
/// `AlreadyExists` and changes nothing.
pub proof fn lemma_initialize_twice(
    slot: Option<VaultView>,
    user: Seq<u8>,
    first_hash: Seq<u8>,
    second_hash: Seq<u8>,
)
    ensures
        initialize_step(initialize_step(slot, user, first_hash).0, user, second_hash).1 == Err::<
            (),
            CustomError,
        >(CustomError::AlreadyExists),
        initialize_step(initialize_step(slot, user, first_hash).0, user, second_hash).0
            == initialize_step(slot, user, first_hash).0,
{
}

/// The owner of an empty vault can add `MAX_ENTRIES` entries whose fields
/// are within their caps: every one of these additions succeeds, the vault
/// then holds the entries in the order in which they came, and one more
/// addition fails with `CapacityExceeded`.
pub proof fn lemma_fill_to_capacity(vault: VaultView, entries: Seq<EntryView>, extra: EntryView)
    requires
        vault.entries.len() == 0,
        entries.len() == MAX_ENTRIES,
        forall|i: int| 0 <= i < entries.len() ==> (#[trigger] entries[i]).within_caps(),
    ensures
        forall|k: int|
            0 <= k < entries.len() ==> (#[trigger] add_entry_step(
                after_additions(vault, vault.owner, entries.take(k)),
                vault.owner,
                entries[k],
            )).1 is Ok,
        after_additions(vault, vault.owner, entries).entries == entries,
        add_entry_step(after_additions(vault, vault.owner, entries), vault.owner, extra).1 == Err::<
            (),
            CustomError,
        >(CustomError::CapacityExceeded),
{
    assert forall|k: int| 0 <= k < entries.len() implies (#[trigger] add_entry_step(
        after_additions(vault, vault.owner, entries.take(k)),
        vault.owner,
        entries[k],
    )).1 is Ok by {
        lemma_after_additions(vault, entries.take(k));
    }
    lemma_after_additions(vault, entries);
    assert(vault.entries + entries =~= entries);
}

/// Additions by the owner that stay within the capacity and the caps all take
/// effect: the vault ends with the new entries behind the old ones.
pub proof fn lemma_after_additions(vault: VaultView, entries: Seq<EntryView>)
    requires
        vault.entries.len() + entries.len() <= MAX_ENTRIES,
        forall|i: int| 0 <= i < entries.len() ==> (#[trigger] entries[i]).within_caps(),
    ensures
        after_additions(vault, vault.owner, entries) == (VaultView {
            entries: vault.entries + entries,
            ..vault
        }),
    decreases entries.len(),
{
    if entries.len() == 0 {
        assert(vault.entries + entries =~= vault.entries);
    } else {
        lemma_after_additions(vault, entries.drop_last());
        assert(entries.last().within_caps());
        assert((vault.entries + entries.drop_last()).push(entries.last()) =~= vault.entries
            + entries);
    }
}

/// An update by the owner at the index just behind the last entry fails with
/// `InvalidIndex`; at the last entry, with fields within their caps, it
/// succeeds, and the vault has as many entries as before.
pub proof fn lemma_update_at_bounds(vault: VaultView, entry: EntryView)
    ensures
        update_entry_step(vault, vault.owner, vault.entries.len(), entry).1 == Err::<
            (),
            CustomError,
        >(CustomError::InvalidIndex),
        vault.entries.len() > 0 && entry.within_caps() ==> {
            let last = (vault.entries.len() - 1) as nat;
            &&& update_entry_step(vault, vault.owner, last, entry).1 is Ok
            &&& update_entry_step(vault, vault.owner, last, entry).0.entries.len()
                == vault.entries.len()
            &&& update_entry_step(vault, vault.owner, last, entry).0.entries[last as int] == entry
        },
{
}

/// A successful update changes the entry at `index` and no other.
pub proof fn lemma_update_keeps_others(
    vault: VaultView,
    caller: Seq<u8>,
    index: nat,
    entry: EntryView,
)
    requires
        update_entry_step(vault, caller, index, entry).1 is Ok,
    ensures
        update_entry_step(vault, caller, index, entry).0.entries.len() == vault.entries.len(),
        update_entry_step(vault, caller, index, entry).0.entries[index as int] == entry,
        forall|j: int|
            0 <= j < vault.entries.len() && j != index ==> update_entry_step(
                vault,
                caller,
                index,
                entry,
            ).0.entries[j] == vault.entries[j],
{
}

/// A successful deletion at `index` shortens the vault by one entry, leaves
/// the entries in front of `index` where they were, and moves each entry
/// behind it up by one: the order of the entries that stay is kept.
pub proof fn lemma_delete_keeps_order(vault: VaultView, caller: Seq<u8>, index: nat)
    requires
        delete_entry_step(vault, caller, index).1 is Ok,
    ensures
        delete_entry_step(vault, caller, index).0.entries.len() == vault.entries.len() - 1,
        forall|j: int|
            0 <= j < index ==> delete_entry_step(vault, caller, index).0.entries[j]
                == vault.entries[j],
        forall|j: int|
            index < j < vault.entries.len() ==> delete_entry_step(vault, caller, index).0.entries[j
                - 1] == vault.entries[j],
{
}

/// Whoever is not the owner is refused by every step with `Unauthorized`,
/// whatever else is wrong with the call, and the vault stays as it was.
pub proof fn lemma_unauthorized_changes_nothing(
    vault: VaultView,
    caller: Seq<u8>,
    index: nat,
    entry: EntryView,
)
    requires
        caller != vault.owner,
    ensures
        add_entry_step(vault, caller, entry) == (
            vault,
            Err::<(), CustomError>(CustomError::Unauthorized),
        ),
        update_entry_step(vault, caller, index, entry) == (
            vault,
            Err::<(), CustomError>(CustomError::Unauthorized),
        ),
        delete_entry_step(vault, caller, index) == (
            vault,
            Err::<(), CustomError>(CustomError::Unauthorized),
        ),
{
}

/// Every step that fails leaves the vault as it was.
pub proof fn lemma_failed_step_changes_nothing(
    vault: VaultView,
    caller: Seq<u8>,
    index: nat,
    entry: EntryView,
)
    ensures
        add_entry_step(vault, caller, entry).1 is Err ==> add_entry_step(vault, caller, entry).0
            == vault,
        update_entry_step(vault, caller, index, entry).1 is Err ==> update_entry_step(
            vault,
            caller,
            index,
            entry,
        ).0 == vault,
        delete_entry_step(vault, caller, index).1 is Err ==> delete_entry_step(
            vault,
            caller,
            index,
        ).0 == vault,
{
}

} // verus!

//! The vault record and its entries.

use crate::identity::Pubkey;
use crate::layout::{
    entry_size, fixed_size, HEADER_SIZE, LENGTH_PREFIX_SIZE, MASTER_HASH_SIZE, MAX_ENTRIES,
    MAX_ENTRY_SIZE, MAX_PASSWORD_LENGTH, MAX_SIZE, MAX_TITLE_LENGTH, MAX_USERNAME_LENGTH,
    OWNER_SIZE,
};
use vstd::prelude::*;
use vstd::utf8::encode_utf8;

verus! {

/// The number of bytes that a string of these characters occupies when stored.
pub open spec fn byte_len(text: Seq<char>) -> nat {
    encode_utf8(text).len()
}

/// One credential: a title, a username and a password.
#[derive(Debug, PartialEq, Eq)]
pub struct PasswordEntry {
    pub title: String,
    pub username: String,
    pub password: String,
}

/// What an entry holds: the characters of its three fields.
pub struct EntryView {
    pub title: Seq<char>,
    pub username: Seq<char>,
    pub password: Seq<char>,
}

impl EntryView {
    /// No field is longer than its cap.
    pub open spec fn within_caps(self) -> bool {
        &&& byte_len(self.title) <= MAX_TITLE_LENGTH
        &&& byte_len(self.username) <= MAX_USERNAME_LENGTH
        &&& byte_len(self.password) <= MAX_PASSWORD_LENGTH
    }

    /// Every field is exactly as long as its cap.
    pub open spec fn at_caps(self) -> bool {
        &&& byte_len(self.title) == MAX_TITLE_LENGTH
        &&& byte_len(self.username) == MAX_USERNAME_LENGTH
        &&& byte_len(self.password) == MAX_PASSWORD_LENGTH
    }

    /// Bytes of the stored entry: each field behind its length prefix.
    pub open spec fn serialized_len(self) -> nat {
        entry_size(byte_len(self.title), byte_len(self.username), byte_len(self.password))
    }
}

impl View for PasswordEntry {
    type V = EntryView;

    open spec fn view(&self) -> EntryView {
        EntryView { title: self.title@, username: self.username@, password: self.password@ }
    }
}

impl Clone for PasswordEntry {
    fn clone(&self) -> (copy: PasswordEntry)
        ensures
            copy == *self,
    {
        PasswordEntry {
            title: self.title.clone(),
            username: self.username.clone(),
            password: self.password.clone(),
        }
    }
}

impl PasswordEntry {
    /// Whether no field of the entry is longer than its cap.
    pub fn within_caps(&self) -> (ok: bool)
        ensures
            ok == self@.within_caps(),
    {
        self.title.as_str().as_bytes().len() <= MAX_TITLE_LENGTH
            && self.username.as_str().as_bytes().len() <= MAX_USERNAME_LENGTH
            && self.password.as_str().as_bytes().len() <= MAX_PASSWORD_LENGTH
    }

    /// Bytes of the stored entry.
    pub fn serialized_len(&self) -> (len: usize)
        requires
            self@.serialized_len() <= usize::MAX,
        ensures
            len == self@.serialized_len(),
    {
        (LENGTH_PREFIX_SIZE + self.title.as_str().as_bytes().len()) + (LENGTH_PREFIX_SIZE
            + self.username.as_str().as_bytes().len()) + (LENGTH_PREFIX_SIZE
            + self.password.as_str().as_bytes().len())
    }
}

/// The vault of one owner.
#[derive(Debug, PartialEq, Eq)]
pub struct PasswordVault {
    /// The identity that created the vault and alone may change it.
    pub owner: Pubkey,
    /// SHA-256 digest of the master password given at creation.
    pub master_hash: [u8; 32],
    /// The stored credentials, in the order in which they were added.
    pub entries: Vec<PasswordEntry>,
}

/// What a vault holds.
pub struct VaultView {
    pub owner: Seq<u8>,
    pub master_hash: Seq<u8>,
    pub entries: Seq<EntryView>,
}

/// Bytes of the stored entries, one after the other.
pub open spec fn entries_size(entries: Seq<EntryView>) -> nat
    decreases entries.len(),
{
    if entries.len() == 0 {
        0
    } else {
        entries_size(entries.drop_last()) + entries.last().serialized_len()
    }
}

impl VaultView {
    /// The vault holds no more entries than it may, and none of them has a
    /// field longer than its cap.
    pub open spec fn wf(self) -> bool {
        &&& self.entries.len() <= MAX_ENTRIES
        &&& forall|i: int| 0 <= i < self.entries.len() ==> (#[trigger] self.entries[i]).within_caps()
    }

    /// The vault holds as many entries as it may, each with fields as long
    /// as they may be.
    pub open spec fn full(self) -> bool {
        &&& self.entries.len() == MAX_ENTRIES
        &&& forall|i: int| 0 <= i < self.entries.len() ==> (#[trigger] self.entries[i]).at_caps()
    }

    /// Bytes of the stored vault in use: everything in front of the zero
    /// fill that pads the record to its allocated size.
    pub open spec fn serialized_len(self) -> nat {
        fixed_size(true) + entries_size(self.entries)
    }
}

impl View for PasswordVault {
    type V = VaultView;

    open spec fn view(&self) -> VaultView {
        VaultView {
            owner: self.owner@,
            master_hash: self.master_hash@,
            entries: Seq::new(self.entries@.len(), |i: int| self.entries@[i]@),
        }
    }
}

impl Clone for PasswordVault {
    fn clone(&self) -> (copy: PasswordVault)
        ensures
            copy.owner == self.owner,
            copy.master_hash == self.master_hash,
            copy.entries@ == self.entries@,
            copy@ == self@,
    {
        let mut entries: Vec<PasswordEntry> = Vec::new();
        let mut i: usize = 0;
        while i < self.entries.len()
            invariant
                i <= self.entries.len(),
                entries@ == self.entries@.take(i as int),
            decreases self.entries.len() - i,
        {
            entries.push(self.entries[i].clone());
            assert(self.entries@.take(i + 1) =~= self.entries@.take(i as int).push(
                self.entries@[i as int],
            ));
            i += 1;
        }
        assert(entries@ =~= self.entries@);
        let copy = PasswordVault { owner: self.owner, master_hash: self.master_hash, entries };
        assert(copy@.entries =~= self@.entries);
        copy
    }
}

impl PasswordVault {
    /// Whether the vault holds no more entries than it may, none of them
    /// with a field longer than its cap.
    pub fn is_well_formed(&self) -> (ok: bool)
        ensures
            ok == self@.wf(),
    {
        if self.entries.len() > MAX_ENTRIES {
            return false;
        }
        let mut i: usize = 0;
        while i < self.entries.len()
            invariant
                i <= self.entries.len(),
                self.entries.len() <= MAX_ENTRIES,
                forall|j: int| 0 <= j < i ==> (#[trigger] self@.entries[j]).within_caps(),
            decreases self.entries.len() - i,
        {
            if !self.entries[i].within_caps() {
                assert(!self@.entries[i as int].within_caps());
                return false;
            }
            i += 1;
        }
        true
    }

    /// Bytes of the stored vault in use. The rest of its record, up to
    /// `MAX_SIZE`, is zero fill.
    pub fn serialized_len(&self) -> (len: usize)
        requires
            self@.serialized_len() <= usize::MAX,
        ensures
            len == self@.serialized_len(),
            self@.wf() ==> len <= MAX_SIZE,
    {
        let mut len: usize = HEADER_SIZE + OWNER_SIZE + MASTER_HASH_SIZE + LENGTH_PREFIX_SIZE;
        let mut i: usize = 0;
        while i < self.entries.len()
            invariant
                i <= self.entries.len(),
                self@.serialized_len() <= usize::MAX,
                len == fixed_size(true) + entries_size(self@.entries.take(i as int)),
            decreases self.entries.len() - i,
        {
            proof {
                lemma_entries_size_prefix(self@.entries, i + 1);
                assert(self@.entries.take(i + 1).drop_last() =~= self@.entries.take(i as int));
            }
            let entry_len = self.entries[i].serialized_len();
            len += entry_len;
            i += 1;
        }
        proof {
            assert(self@.entries.take(i as int) =~= self@.entries);
            if self@.wf() {
                lemma_vault_fits_budget(self@);
            }
        }
        len
    }
}

/// The first entries of a list occupy no more bytes than the whole list.
pub proof fn lemma_entries_size_prefix(entries: Seq<EntryView>, count: int)
    requires
        0 <= count <= entries.len(),
    ensures
        entries_size(entries.take(count)) <= entries_size(entries),
    decreases entries.len(),
{
    if count == entries.len() {
        assert(entries.take(count) =~= entries);
    } else {
        lemma_entries_size_prefix(entries.drop_last(), count);
        assert(entries.drop_last().take(count) =~= entries.take(count));
    }
}

/// Entries whose fields are within their caps occupy at most `MAX_ENTRY_SIZE`
/// bytes each.
pub proof fn lemma_entries_size_bound(entries: Seq<EntryView>)
    requires
        forall|i: int| 0 <= i < entries.len() ==> (#[trigger] entries[i]).within_caps(),
    ensures
        entries_size(entries) <= entries.len() * MAX_ENTRY_SIZE,
    decreases entries.len(),
{
    if entries.len() > 0 {
        assert(entries.last().within_caps());
        lemma_entries_size_bound(entries.drop_last());
    }
}

/// Entries whose fields are as long as they may be occupy exactly
/// `MAX_ENTRY_SIZE` bytes each.
pub proof fn lemma_entries_size_at_caps(entries: Seq<EntryView>)
    requires
        forall|i: int| 0 <= i < entries.len() ==> (#[trigger] entries[i]).at_caps(),
    ensures
        entries_size(entries) == entries.len() * MAX_ENTRY_SIZE,
    decreases entries.len(),
{
    if entries.len() > 0 {
        assert(entries.last().at_caps());
        lemma_entries_size_at_caps(entries.drop_last());
    }
}

/// A well-formed vault fits the record that was allocated for it.
pub proof fn lemma_vault_fits_budget(vault: VaultView)
    requires
        vault.wf(),
    ensures
        vault.serialized_len() <= MAX_SIZE,
{
    lemma_entries_size_bound(vault.entries);
}

/// A vault with the most entries, each with the longest fields, fills its
/// record to the last byte: the budget is no larger than it has to be.
pub proof fn lemma_full_vault_fills_budget(vault: VaultView)
    requires
        vault.full(),
    ensures
        vault.wf(),
        vault.serialized_len() == MAX_SIZE,
{
    lemma_entries_size_at_caps(vault.entries);
    assert forall|i: int| 0 <= i < vault.entries.len() implies (
    #[trigger] vault.entries[i]).within_caps() by {
        assert(vault.entries[i].at_caps());
    }
}

} // verus!

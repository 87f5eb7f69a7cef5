//! The byte budget of a stored vault.
//!
//! A vault is stored as a record of fixed size: a header, the owner, the
//! digest of the master password, a four-byte entry count and the entries,
//! each of them three length-prefixed byte strings. The record is allocated
//! once, at its largest possible size, and never grows.

use vstd::prelude::*;

verus! {

/// Bytes of record metadata in front of the vault's own fields.
pub const HEADER_SIZE: usize = 8;

/// Bytes of the owner's identity.
pub const OWNER_SIZE: usize = 32;

/// Bytes of the master password's digest.
pub const MASTER_HASH_SIZE: usize = 32;

/// Bytes of the length in front of each string and in front of the entry list.
pub const LENGTH_PREFIX_SIZE: usize = 4;

/// The most entries a vault may hold.
pub const MAX_ENTRIES: usize = 15;

/// The most bytes a title may have.
pub const MAX_TITLE_LENGTH: usize = 32;

/// The most bytes a username may have.
pub const MAX_USERNAME_LENGTH: usize = 32;

/// The most bytes a password may have.
pub const MAX_PASSWORD_LENGTH: usize = 64;

/// Bytes of one stored entry whose three fields are as long as they may be.
pub const MAX_ENTRY_SIZE: usize = 140;

/// Bytes of a stored vault: the size at which its record is allocated.
pub const MAX_SIZE: usize = 2176;

/// Bytes of one stored entry whose fields have the given lengths.
pub open spec fn entry_size(title: nat, username: nat, secret: nat) -> nat {
    (LENGTH_PREFIX_SIZE as nat + title) + (LENGTH_PREFIX_SIZE as nat + username) + (
    LENGTH_PREFIX_SIZE as nat + secret)
}

/// Bytes of the record in front of the entries: header, owner, the digest if
/// the vault stores one, and the entry count.
pub open spec fn fixed_size(with_master_hash: bool) -> nat {
    HEADER_SIZE as nat + OWNER_SIZE as nat + (if with_master_hash {
        MASTER_HASH_SIZE as nat
    } else {
        0nat
    }) + LENGTH_PREFIX_SIZE as nat
}

/// Bytes of the record of a vault that may hold `max_entries` entries with
/// fields of at most the given lengths.
pub open spec fn max_size(
    max_entries: nat,
    max_title: nat,
    max_username: nat,
    max_secret: nat,
    with_master_hash: bool,
) -> nat {
    fixed_size(with_master_hash) + max_entries * entry_size(max_title, max_username, max_secret)
}

/// Computes the size at which the record of a vault is allocated, for a
/// configuration of the vault: how many entries it may hold, how long their
/// fields may be, and whether it stores the digest of a master password.
pub fn compute_max_size(
    max_entries: usize,
    max_title: usize,
    max_username: usize,
    max_secret: usize,
    with_master_hash: bool,
) -> (size: usize)
    requires
        max_size(
            max_entries as nat,
            max_title as nat,
            max_username as nat,
            max_secret as nat,
            with_master_hash,
        ) <= usize::MAX,
    ensures
        size == max_size(
            max_entries as nat,
            max_title as nat,
            max_username as nat,
            max_secret as nat,
            with_master_hash,
        ),
{
    let hash_size: usize = if with_master_hash {
        MASTER_HASH_SIZE
    } else {
        0
    };
    let fixed: usize = HEADER_SIZE + OWNER_SIZE + hash_size + LENGTH_PREFIX_SIZE;
    let ghost per_entry = entry_size(max_title as nat, max_username as nat, max_secret as nat);
    if max_entries == 0 {
        assert(max_entries * per_entry == 0) by (nonlinear_arith)
            requires
                max_entries == 0,
        ;
        return fixed;
    }
    assert(per_entry <= max_entries * per_entry) by (nonlinear_arith)
        requires
            max_entries >= 1,
    ;
    let entry: usize = (LENGTH_PREFIX_SIZE + max_title) + (LENGTH_PREFIX_SIZE + max_username) + (
    LENGTH_PREFIX_SIZE + max_secret);
    fixed + max_entries * entry
}

/// The allocation constants are the budget of the configuration that this
/// crate implements: fifteen entries, titles and usernames of up to 32 bytes,
/// passwords of up to 64 bytes, and a stored digest.
pub proof fn lemma_max_size_constant()
    ensures
        MAX_ENTRY_SIZE == entry_size(
            MAX_TITLE_LENGTH as nat,
            MAX_USERNAME_LENGTH as nat,
            MAX_PASSWORD_LENGTH as nat,
        ),
        MAX_SIZE == max_size(
            MAX_ENTRIES as nat,
            MAX_TITLE_LENGTH as nat,
            MAX_USERNAME_LENGTH as nat,
            MAX_PASSWORD_LENGTH as nat,
            true,
        ),
{
}

} // verus!

use blockchain_password_manager::address::{derive_vault_address, ADDRESS_SIZE, VAULT_NAMESPACE};
use blockchain_password_manager::layout::{
    compute_max_size, HEADER_SIZE, LENGTH_PREFIX_SIZE, MASTER_HASH_SIZE, MAX_ENTRIES,
    MAX_ENTRY_SIZE, MAX_PASSWORD_LENGTH, MAX_SIZE, MAX_TITLE_LENGTH, MAX_USERNAME_LENGTH,
    OWNER_SIZE,
};
use blockchain_password_manager::Pubkey;

fn key(seed: u8) -> Pubkey {
    let mut bytes = [0u8; 32];
    for (i, b) in bytes.iter_mut().enumerate() {
        *b = seed.wrapping_add(i as u8);
    }
    Pubkey { bytes }
}

#[test]
fn namespace_spells_vault() {
    assert_eq!(&VAULT_NAMESPACE, b"vault");
    assert_eq!(ADDRESS_SIZE, VAULT_NAMESPACE.len() + 32);
}

#[test]
fn address_is_namespace_then_owner() {
    let owner = key(7);
    let address = derive_vault_address(&owner);
    assert_eq!(address.bytes.len(), 37);
    assert_eq!(&address.bytes[..5], b"vault");
    assert_eq!(&address.bytes[5..], &owner.bytes[..]);
}

#[test]
fn address_of_zero_owner_is_exact() {
    let address = derive_vault_address(&Pubkey { bytes: [0u8; 32] });
    let mut expected = [0u8; 37];
    expected[0] = 0x76;
    expected[1] = 0x61;
    expected[2] = 0x75;
    expected[3] = 0x6c;
    expected[4] = 0x74;
    assert_eq!(address.bytes, expected);
}

#[test]
fn address_is_deterministic() {
    for seed in 0..=255u8 {
        let first = derive_vault_address(&key(seed));
        let second = derive_vault_address(&key(seed));
        assert_eq!(first, second);
    }
}

#[test]
fn address_differs_for_distinct_owners() {
    for a in 0..64u8 {
        for b in 0..64u8 {
            let same_owner = key(a) == key(b);
            let same_address = derive_vault_address(&key(a)) == derive_vault_address(&key(b));
            assert_eq!(same_owner, same_address);
            assert_eq!(same_owner, a == b);
        }
    }
}

#[test]
fn address_differs_when_only_last_byte_differs() {
    let mut a = [9u8; 32];
    let b = a;
    a[31] = 10;
    assert_ne!(
        derive_vault_address(&Pubkey { bytes: a }),
        derive_vault_address(&Pubkey { bytes: b })
    );
}

#[test]
fn keys_compare_by_bytes() {
    assert!(key(1) == key(1));
    assert!(key(1) != key(2));
    let mut bytes = [0u8; 32];
    bytes[0] = 1;
    let mut other = [0u8; 32];
    other[31] = 1;
    assert!(Pubkey { bytes } != Pubkey { bytes: other });
    assert!(Pubkey { bytes } == Pubkey { bytes });
}

#[test]
fn layout_constants() {
    assert_eq!(HEADER_SIZE, 8);
    assert_eq!(OWNER_SIZE, 32);
    assert_eq!(MASTER_HASH_SIZE, 32);
    assert_eq!(LENGTH_PREFIX_SIZE, 4);
    assert_eq!(MAX_ENTRIES, 15);
    assert_eq!(MAX_TITLE_LENGTH, 32);
    assert_eq!(MAX_USERNAME_LENGTH, 32);
    assert_eq!(MAX_PASSWORD_LENGTH, 64);
    assert_eq!(MAX_ENTRY_SIZE, 4 + 32 + 4 + 32 + 4 + 64);
    assert_eq!(MAX_ENTRY_SIZE, 140);
    assert_eq!(MAX_SIZE, 8 + 32 + 32 + 4 + 15 * 140);
    assert_eq!(MAX_SIZE, 2176);
}

#[test]
fn max_size_five_entries_without_hash() {
    assert_eq!(compute_max_size(5, 32, 32, 64, false), 8 + 32 + 4 + 5 * 140);
    assert_eq!(compute_max_size(5, 32, 32, 64, false), 744);
}

#[test]
fn max_size_five_entries_with_hash() {
    assert_eq!(compute_max_size(5, 32, 32, 64, true), 8 + 32 + 32 + 4 + 5 * 140);
    assert_eq!(compute_max_size(5, 32, 32, 64, true), 776);
}

#[test]
fn max_size_fifteen_entries_with_hash() {
    assert_eq!(compute_max_size(15, 32, 32, 64, true), 2176);
    assert_eq!(
        compute_max_size(
            MAX_ENTRIES,
            MAX_TITLE_LENGTH,
            MAX_USERNAME_LENGTH,
            MAX_PASSWORD_LENGTH,
            true
        ),
        MAX_SIZE
    );
}

#[test]
fn max_size_without_entries_is_the_fixed_part() {
    assert_eq!(compute_max_size(0, 32, 32, 64, true), 76);
    assert_eq!(compute_max_size(0, 32, 32, 64, false), 44);
    assert_eq!(compute_max_size(0, usize::MAX, usize::MAX, usize::MAX, true), 76);
}

#[test]
fn max_size_counts_each_field_and_prefix() {
    assert_eq!(compute_max_size(1, 0, 0, 0, false), 44 + 12);
    assert_eq!(compute_max_size(1, 1, 0, 0, false), 44 + 13);
    assert_eq!(compute_max_size(1, 0, 2, 0, false), 44 + 14);
    assert_eq!(compute_max_size(1, 0, 0, 3, false), 44 + 15);
    assert_eq!(compute_max_size(3, 10, 20, 30, true), 76 + 3 * 72);
}

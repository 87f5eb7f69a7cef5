//! Where the vault of an owner is kept.
//!
//! The address of a vault is the fixed namespace followed by the owner's
//! identity. Nothing else goes into it, so an owner has one address, and two
//! owners never share one.

use crate::identity::Pubkey;
use vstd::prelude::*;

verus! {

/// The bytes `vault`, which every vault address starts with.
pub const VAULT_NAMESPACE: [u8; 5] = [0x76, 0x61, 0x75, 0x6c, 0x74];

/// The number of bytes in a vault address.
pub const ADDRESS_SIZE: usize = 37;

/// The storage key of a vault.
#[derive(Clone, Copy, Debug, PartialEq, Eq)]
pub struct VaultAddress {
    pub bytes: [u8; 37],
}

impl View for VaultAddress {
    type V = Seq<u8>;

    open spec fn view(&self) -> Seq<u8> {
        self.bytes@
    }
}

/// The address of the vault of the owner with these bytes.
pub open spec fn vault_address(owner: Seq<u8>) -> Seq<u8> {
    VAULT_NAMESPACE@ + owner
}

/// Derives the address of an owner's vault.
pub fn derive_vault_address(owner: &Pubkey) -> (address: VaultAddress)
    ensures
        address@ == vault_address(owner@),
{
    let mut bytes = [0u8; 37];
    let mut i: usize = 0;
    while i < 5
        invariant
            i <= 5,
            forall|j: int| 0 <= j < i ==> bytes@[j] == VAULT_NAMESPACE@[j],
        decreases 5 - i,
    {
        bytes[i] = VAULT_NAMESPACE[i];
        i += 1;
    }
    let mut k: usize = 0;
    while k < 32
        invariant
            k <= 32,
            forall|j: int| 0 <= j < 5 ==> bytes@[j] == VAULT_NAMESPACE@[j],
            forall|j: int| 0 <= j < k ==> bytes@[5 + j] == owner.bytes@[j],
        decreases 32 - k,
    {
        bytes[5 + k] = owner.bytes[k];
        k += 1;
    }
    assert(bytes@ =~= vault_address(owner@));
    VaultAddress { bytes }
}

/// Two owners have the same vault address exactly when they are the same
/// owner.
pub proof fn lemma_vault_address_injective(first: Seq<u8>, second: Seq<u8>)
    ensures
        vault_address(first) == vault_address(second) <==> first == second,
{
    if vault_address(first) == vault_address(second) {
        assert(vault_address(first).skip(5) =~= first);
        assert(vault_address(second).skip(5) =~= second);
    }
}

} // verus!

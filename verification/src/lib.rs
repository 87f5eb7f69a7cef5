//! A capacity-bounded, owner-authenticated credential vault.
//!
//! Every owner identity has at most one vault: an ordered list of
//! title / username / password entries guarded by an ownership check, with a
//! digest of the owner's master password stored beside it. The crate covers
//! the addressing of a vault from its owner, the fixed byte budget of the
//! stored record, and the four operations that create and edit a vault.

pub mod address;
pub mod digest;
pub mod error;
pub mod identity;
pub mod layout;
pub mod operations;
pub mod vault;

pub use address::{derive_vault_address, VaultAddress, VAULT_NAMESPACE};
pub use error::CustomError;
pub use identity::Pubkey;
pub use layout::{compute_max_size, MAX_ENTRIES, MAX_SIZE};
pub use operations::{
    add_entry, delete_entry, initialize_vault, initialize_vault_with_hash, update_entry, AddEntry,
    DeleteEntry, InitializeVault, UpdateEntry,
};
pub use vault::{PasswordEntry, PasswordVault};

//! Protected keys, a domain-separated key hierarchy, and revocable key slots.
//!
//! ```text
//! passphrase --Argon2id--> master key (256 bits)
//! master key --HKDF-SHA-256, one label per domain--> domain keys
//! master key --AES-256-GCM, under a key per passphrase--> key slots
//! ```
//!
//! Every key is an [`AegisKey`]: it is wiped when it is dropped, never
//! printed, and compared without an early exit. An [`AegisVault`] holds a live
//! master key with its hierarchy, encrypts data, and persists access to the
//! master key in key slots that can be added and revoked.

pub mod aead;
pub mod aegis_key;
pub mod args;
pub mod bytes;
pub mod container;
pub mod debug;
pub mod error;
pub mod hierarchy;
pub mod kdf;
pub mod primitives;
pub mod slots;
pub mod tool;
pub mod vault;

use vstd::prelude::*;

pub use aead::{AeadAlgo as AegisAlgoTag, AeadCipher};
pub use aegis_key::AegisKey;
pub use error::{AegisError, Result};
pub use hierarchy::{Domain, KeyHierarchy, MASTER_SALT, SUBKEY_SALT};
pub use kdf::{argon2id_root, hkdf_sha256, MASTER_LEN};
pub use slots::{
    KeySlot, KeySlotTable, VolumeKeyRotation, HEADER_MAGIC, HEADER_VERSION, KDF_ID_ARGON2ID,
    MAX_SLOTS, NONCE_LEN, TAG_LEN,
};
pub use vault::AegisVault;

verus! {

/// Default Argon2id memory cost in KiB.
pub const DEFAULT_ARGON2_MEMORY_KIB: u32 = 64 * 1024;

/// Default Argon2id time cost.
pub const DEFAULT_ARGON2_ITERATIONS: u32 = 3;

} // verus!

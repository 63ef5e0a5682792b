//! The error type.
//!
//! Errors are opaque on purpose: none of them carries key material,
//! passphrases, salts or nonces, so logging one cannot leak a secret.

use vstd::prelude::*;

verus! {

/// Errors of the key-management layer.
#[derive(Debug)]
pub enum AegisError {
    /// Argon2id refused its parameters or its input lengths.
    Argon2,
    /// HKDF expansion failed.
    Hkdf,
    /// AEAD sealing failed.
    AeadSeal,
    /// AEAD opening failed: the outcome of a wrong key or of tampered data.
    AeadOpen,
    /// A key of an unexpected length was supplied.
    KeyLength { expected: usize, got: usize },
    /// A key slot could not be opened with the supplied passphrase.
    SlotUnseal,
    /// No enabled slot could be opened with the supplied passphrase.
    NoSlotUnsealed,
    /// The last enabled slot cannot be revoked.
    LastSlotRevocation,
    /// The slot table is full; the field is the limit.
    SlotTableFull(usize),
    /// The slot table does not match its keyed hash.
    HeaderIntegrity,
    /// The recovered master key does not match the volume verifier.
    VolumeMismatch,
    /// A slot table could not be read.
    Serialization,
}

pub type Result<T> = std::result::Result<T, AegisError>;

} // verus!

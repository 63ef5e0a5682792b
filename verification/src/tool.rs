//! The operations of the command-line tool, on the contents of its files.

use crate::aead::{can_seal, opened, sealed, seals, AeadAlgo};
use crate::container::{
    blob_bytes, blob_contents, law_blob_round_trip, law_vault_file_round_trip, read_blob,
    read_vault, vault_contents, vault_file, write_blob, write_vault, BlobError, VaultFileError,
};
use crate::error::AegisError;
use crate::hierarchy::{domain_key, info, Domain, MASTER_SALT};
use crate::kdf::{passphrase_key, MASTER_LEN};
use crate::primitives::{hkdf_sha256_okm, is_drawn, xchacha20poly1305_plaintext};
use crate::slots::encoding::table_bytes;
use crate::slots::{
    extended_table, initial_table, slot_is_drawn, slot_master, slot_opens, TableModel, MAX_SLOTS,
};
use crate::vault::laws::{law_added_user_reopens, law_sealed_vault_reopens};
use crate::vault::{reopened, valid_vault, AegisVault, VaultModel};
use vstd::prelude::*;

verus! {

/// Argon2id salt of the master keys that the tool makes: `aegis-cli-salt-v1`.
/// It is public and the same for all vaults; the salts of the key slots are
/// random.
pub const TOOL_SALT: &'static [u8; 17] = &[
    0x61, 0x65, 0x67, 0x69, 0x73, 0x2d, 0x63, 0x6c, 0x69, 0x2d, 0x73, 0x61, 0x6c, 0x74, 0x2d,
    0x76, 0x31,
];

/// Argon2id memory cost of the master keys that the tool makes, in KiB.
pub const TOOL_MEMORY_KIB: u32 = 32 * 1024;

/// Argon2id time cost of the master keys that the tool makes.
pub const TOOL_ITERATIONS: u32 = 2;

/// Associated data of sealed files: `aegis-cli`.
pub const TOOL_AAD: &'static [u8; 9] = &[0x61, 0x65, 0x67, 0x69, 0x73, 0x2d, 0x63, 0x6c, 0x69];

/// Why an operation failed.
#[derive(Debug)]
pub enum ToolError {
    /// The vault file cannot be read.
    VaultFile(VaultFileError),
    /// The master key could not be derived.
    KeyDerivation(AegisError),
    /// The master key could not be sealed into a slot.
    SealSlots(AegisError),
    /// The vault could not be opened; the passphrase may be wrong.
    OpenVault(AegisError),
    /// The slot could not be added.
    AddSlot(AegisError),
    /// The data could not be encrypted.
    Encrypt(AegisError),
    /// The sealed file cannot be read.
    Blob(BlobError),
    /// The data could not be decrypted; the key may be wrong.
    Decrypt(AegisError),
}

/// The vault that a vault file gives with a passphrase.
pub open spec fn opened_vault(file: Seq<u8>, passphrase: Seq<u8>) -> Result<
    VaultModel,
    ToolError,
> {
    match vault_contents(file) {
        Ok((slot_bytes, salt)) => match reopened(slot_bytes, salt, passphrase) {
            Ok(v) => Ok(v),
            Err(e) => Err(ToolError::OpenVault(e)),
        },
        Err(e) => Err(ToolError::VaultFile(e)),
    }
}

/// The vault file of a slot table.
pub open spec fn table_file(t: TableModel) -> Seq<u8> {
    vault_file(table_bytes(t), t.header_salt)
}

/// The key that seals files.
pub open spec fn file_key(master: Seq<u8>) -> Seq<u8> {
    domain_key(master, Domain::Enc)
}

/// The data that a sealed file holds under a master key.
pub open spec fn opened_blob(master: Seq<u8>, blob: Seq<u8>) -> Result<Seq<u8>, ToolError> {
    match blob_contents(blob) {
        Ok((nonce, ct)) => match opened(
            AeadAlgo::XChaCha20Poly1305,
            file_key(master),
            nonce,
            ct,
            TOOL_AAD@,
        ) {
            Some(data) => Ok(data),
            None => Err(ToolError::Decrypt(AegisError::AeadOpen)),
        },
        Err(e) => Err(ToolError::Blob(e)),
    }
}

/// Opens a vault file with a passphrase.
pub fn open_vault(file: &[u8], passphrase: &[u8]) -> (result: Result<AegisVault, ToolError>)
    ensures
        match result {
            Ok(vault) => {
                &&& opened_vault(file@, passphrase@) == Ok::<VaultModel, ToolError>(vault@)
                &&& valid_vault(vault@)
            },
            Err(e) => opened_vault(file@, passphrase@) == Err::<VaultModel, ToolError>(e),
        },
{
    match read_vault(file) {
        Ok((slot_bytes, salt)) => {
            // The placeholder is replaced where the table opens, and dropped
            // where it does not.
            let mut vault = AegisVault::from_master_key([0u8; MASTER_LEN]);
            match vault.open_from_slots(&slot_bytes, &salt, passphrase) {
                Ok(()) => Ok(vault),
                Err(e) => Err(ToolError::OpenVault(e)),
            }
        },
        Err(e) => Err(ToolError::VaultFile(e)),
    }
}

/// The vault file of a vault, if it has a slot table.
pub fn vault_to_file(vault: &AegisVault) -> (file: Option<Vec<u8>>)
    ensures
        match vault@.slots {
            Some(t) => file matches Some(bytes) && bytes@ == table_file(t),
            None => file is None,
        },
{
    match (vault.slots_to_bytes(), vault.slots_header_salt()) {
        (Some(slot_bytes), Some(salt)) => Some(write_vault(&slot_bytes, &salt)),
        _ => None,
    }
}

/// Makes a new vault, without a slot table. Its master key is derived from the
/// passphrase.
pub fn new_vault(passphrase: &[u8]) -> (result: Result<AegisVault, ToolError>)
    ensures
        result is Ok <==> passphrase@.len() <= 0xffff_ffff,
        result matches Err(e) ==> e == ToolError::KeyDerivation(AegisError::Argon2),
        result matches Ok(vault) ==> {
            &&& passphrase_key(passphrase@, TOOL_SALT@, TOOL_MEMORY_KIB, TOOL_ITERATIONS) == Some(
                vault@.master,
            )
            &&& vault@.slots is None
            &&& valid_vault(vault@)
        },
{
    match AegisVault::unlock(passphrase, TOOL_SALT, TOOL_MEMORY_KIB, TOOL_ITERATIONS) {
        Ok(vault) => Ok(vault),
        Err(e) => Err(ToolError::KeyDerivation(e)),
    }
}

/// Seals the master key of a vault into a slot table with one slot. Returns
/// the vault file.
///
/// The passphrase opens the file to the same vault.
pub fn init_vault(vault: &mut AegisVault, passphrase: &[u8]) -> (result: Result<
    Vec<u8>,
    ToolError,
>)
    ensures
        valid_vault(final(vault)@),
        final(vault)@.master == old(vault)@.master,
        result is Ok <==> passphrase@.len() <= 0xffff_ffff,
        result matches Err(e) ==> {
            &&& e == ToolError::SealSlots(AegisError::Argon2)
            &&& final(vault)@ == old(vault)@
        },
        result matches Ok(file) ==> {
            &&& final(vault)@.slots matches Some(t) && initial_table(
                t,
                old(vault)@.master,
                passphrase@,
            ) && is_drawn(t.header_salt) && slot_is_drawn(t.slots[0]) && file@ == table_file(t)
            &&& opened_vault(file@, passphrase@) == Ok::<VaultModel, ToolError>(final(vault)@)
        },
{
    match vault.seal_slots(passphrase) {
        Ok(()) => {
            proof {
                let t = vault@.slots->0;
                law_sealed_vault_reopens(vault@, t, passphrase@);
                law_vault_file_round_trip(table_bytes(t), t.header_salt);
            }
            match vault_to_file(vault) {
                Some(file) => Ok(file),
                None => vstd::pervasive::unreached(),
            }
        },
        Err(e) => Err(ToolError::SealSlots(e)),
    }
}

/// Adds a key slot for another user to a vault. Returns the index of the slot
/// and the new vault file.
pub fn add_user(vault: &mut AegisVault, passphrase: &[u8]) -> (result: Result<
    (usize, Vec<u8>),
    ToolError,
>)
    ensures
        valid_vault(final(vault)@),
        final(vault)@.master == old(vault)@.master,
        match result {
            Ok((i, file)) => {
                &&& passphrase@.len() <= 0xffff_ffff
                &&& final(vault)@.slots matches Some(t) && file@ == table_file(t) && match old(
                    vault,
                )@.slots {
                    Some(before) => {
                        &&& before.slots.len() < MAX_SLOTS
                        &&& i == before.slots.len()
                        &&& extended_table(t, before, old(vault)@.master, passphrase@)
                        &&& slot_is_drawn(t.slots.last())
                    },
                    None => i == 0 && initial_table(t, old(vault)@.master, passphrase@)
                        && is_drawn(t.header_salt) && slot_is_drawn(t.slots[0]),
                }
            },
            Err(e) => {
                &&& final(vault)@ == old(vault)@
                &&& if old(vault)@.slots matches Some(before) && before.slots.len() >= MAX_SLOTS {
                    e == ToolError::AddSlot(AegisError::SlotTableFull(MAX_SLOTS))
                } else {
                    &&& e == ToolError::AddSlot(AegisError::Argon2)
                    &&& passphrase@.len() > 0xffff_ffff
                }
            },
        },
{
    match vault.add_slot(passphrase) {
        Ok(i) => match vault_to_file(vault) {
            Some(file) => Ok((i, file)),
            None => vstd::pervasive::unreached(),
        },
        Err(e) => Err(ToolError::AddSlot(e)),
    }
}

/// Encrypts the contents of a file with the bulk domain key of a vault.
/// Returns the sealed file and the length of the ciphertext in it.
///
/// The same vault decrypts the sealed file to the same contents.
pub fn seal_data(vault: &AegisVault, data: &[u8]) -> (result: Result<(Vec<u8>, usize), ToolError>)
    requires
        can_seal(AeadAlgo::XChaCha20Poly1305, data@.len()),
    ensures
        result is Ok <==> seals(AeadAlgo::XChaCha20Poly1305, data@.len(), TOOL_AAD@.len()),
        result matches Err(e) ==> e == ToolError::Encrypt(AegisError::AeadSeal),
        result matches Ok((blob, ct_len)) ==> {
            &&& blob_contents(blob@) matches Ok((nonce, ct)) && {
                &&& nonce.len() == 24
                &&& is_drawn(nonce)
                &&& ct == sealed(
                    AeadAlgo::XChaCha20Poly1305,
                    file_key(vault@.master),
                    nonce,
                    data@,
                    TOOL_AAD@,
                )
                &&& blob@ == blob_bytes(nonce, ct)
                &&& ct_len == ct.len() == data@.len() + 16
            }
            &&& opened_blob(vault@.master, blob@) == Ok::<Seq<u8>, ToolError>(data@)
        },
{
    match vault.encrypt(Domain::Enc, data, TOOL_AAD, AeadAlgo::XChaCha20Poly1305) {
        Ok((nonce, ct)) => {
            proof {
                law_blob_round_trip(nonce@, ct@);
            }
            Ok((write_blob(&nonce, &ct), ct.len()))
        },
        Err(e) => Err(ToolError::Encrypt(e)),
    }
}

/// Decrypts a sealed file with the bulk domain key of a vault.
pub fn open_data(vault: &AegisVault, blob: &[u8]) -> (result: Result<Vec<u8>, ToolError>)
    ensures
        match result {
            Ok(data) => opened_blob(vault@.master, blob@) == Ok::<Seq<u8>, ToolError>(data@),
            Err(e) => opened_blob(vault@.master, blob@) == Err::<Seq<u8>, ToolError>(e),
        },
        result matches Ok(data) ==> blob_contents(blob@) matches Ok((nonce, ct)) && (seals(
            AeadAlgo::XChaCha20Poly1305,
            data@.len(),
            TOOL_AAD@.len(),
        ) ==> ct == sealed(
            AeadAlgo::XChaCha20Poly1305,
            file_key(vault@.master),
            nonce,
            data@,
            TOOL_AAD@,
        )),
{
    match read_blob(blob) {
        Ok((nonce, ct)) => match vault.decrypt(
            Domain::Enc,
            nonce,
            ct,
            TOOL_AAD,
            AeadAlgo::XChaCha20Poly1305,
        ) {
            Ok(data) => Ok(data),
            Err(e) => Err(ToolError::Decrypt(e)),
        },
        Err(e) => Err(ToolError::Blob(e)),
    }
}

/// Law: a user who was added opens the new vault file with their own
/// passphrase, to the same vault, unless the passphrase opens an earlier slot
/// to another master key.
pub proof fn law_added_user_opens_the_file(
    v: VaultModel,
    t: TableModel,
    before: TableModel,
    passphrase: Seq<u8>,
)
    requires
        valid_vault(v),
        v.slots == Some(t),
        extended_table(t, before, v.master, passphrase),
        forall|j: int|
            0 <= j < before.slots.len() && slot_opens(#[trigger] before.slots[j], passphrase)
                ==> slot_master(before.slots[j], passphrase) == Some(v.master),
    ensures
        opened_vault(table_file(t), passphrase) == Ok::<VaultModel, ToolError>(v),
{
    law_added_user_reopens(v, t, before, passphrase);
    law_vault_file_round_trip(table_bytes(t), t.header_salt);
}

/// Law: the vault file of a table holds the encoded table and its header salt.
pub proof fn law_table_file(t: TableModel)
    requires
        t.header_salt.len() == 32,
    ensures
        vault_contents(table_file(t)) == Ok::<(Seq<u8>, Seq<u8>), VaultFileError>(
            (table_bytes(t), t.header_salt),
        ),
{
    law_vault_file_round_trip(table_bytes(t), t.header_salt);
}

/// Law: a vault file opens to the vault that its slot table reopens to, and
/// fails where the file cannot be read or the table does not reopen.
pub proof fn law_vault_file_opens_as_its_table_reopens(
    file: Seq<u8>,
    passphrase: Seq<u8>,
    slot_bytes: Seq<u8>,
    salt: Seq<u8>,
)
    ensures
        vault_contents(file) matches Err(e) ==> opened_vault(file, passphrase) == Err::<
            VaultModel,
            ToolError,
        >(ToolError::VaultFile(e)),
        vault_contents(file) == Ok::<(Seq<u8>, Seq<u8>), VaultFileError>((slot_bytes, salt)) ==> (
        match reopened(slot_bytes, salt, passphrase) {
            Ok(v) => opened_vault(file, passphrase) == Ok::<VaultModel, ToolError>(v),
            Err(e) => opened_vault(file, passphrase) == Err::<VaultModel, ToolError>(
                ToolError::OpenVault(e),
            ),
        }),
{
}

/// Law: a sealed file holds what XChaCha20-Poly1305 recovers from its whole
/// ciphertext under its whole nonce, the bulk key of the vault, and the
/// associated data of the tool.
pub proof fn law_sealed_file_opens_as_the_cipher_does(
    master: Seq<u8>,
    blob: Seq<u8>,
    nonce: Seq<u8>,
    ct: Seq<u8>,
    data: Seq<u8>,
)
    requires
        blob_contents(blob) == Ok::<(Seq<u8>, Seq<u8>), BlobError>((nonce, ct)),
    ensures
        file_key(master) == hkdf_sha256_okm(master, MASTER_SALT@, info::K_ENC@)@,
        opened_blob(master, blob) == Ok::<Seq<u8>, ToolError>(data) <==> {
            &&& nonce.len() == 24
            &&& !(0x3f_ffff_ff90 < ct.len() < 0x3f_ffff_ffd0)
            &&& xchacha20poly1305_plaintext(
                hkdf_sha256_okm(master, MASTER_SALT@, info::K_ENC@)@,
                nonce,
                ct,
                TOOL_AAD@,
            ) == Some(data)
        },
        opened_blob(master, blob) matches Err(e) ==> e == ToolError::Decrypt(AegisError::AeadOpen),
{
}

/// Law: a sealed file that cannot be read is refused for the reason that
/// reading it gives.
pub proof fn law_unreadable_sealed_file(master: Seq<u8>, blob: Seq<u8>, e: BlobError)
    requires
        blob_contents(blob) == Err::<(Seq<u8>, Seq<u8>), BlobError>(e),
    ensures
        opened_blob(master, blob) == Err::<Seq<u8>, ToolError>(ToolError::Blob(e)),
{
}

} // verus!

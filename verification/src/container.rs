//! The files of the command-line tool.
//!
//! ```text
//! vault file:  "AEGIS" ‖ version (1 byte) ‖ header salt (32 bytes) ‖ slot table
//! sealed file: algorithm (1 byte) ‖ nonce length (1 byte) ‖ nonce ‖ ciphertext
//! ```

use crate::bytes::{append, array_from, same};
use vstd::prelude::*;
use vstd::slice::slice_to_vec;

verus! {

/// Magic bytes of a vault file: `AEGIS`.
pub const VAULT_MAGIC: &'static [u8; 5] = &[0x41, 0x45, 0x47, 0x49, 0x53];

/// Version of the vault file format.
pub const VAULT_VERSION: u8 = 1;

/// Length of what precedes the slot table in a vault file.
pub const VAULT_HEADER_LEN: usize = 38;

/// Algorithm byte of a sealed file: XChaCha20-Poly1305.
pub const BLOB_XCHACHA: u8 = 0;

/// Why a vault file cannot be read.
#[derive(Debug, Clone, Copy, PartialEq, Eq, Structural)]
pub enum VaultFileError {
    /// It is shorter than its header.
    TooShort,
    /// It does not begin with the magic bytes.
    NotAVault,
    /// Its version is unknown.
    UnsupportedVersion,
}

/// Why a sealed file cannot be read.
#[derive(Debug, Clone, Copy, PartialEq, Eq, Structural)]
pub enum BlobError {
    /// It is shorter than two bytes.
    TooShort,
    /// It ends inside the nonce.
    Corrupt,
}

/// The vault file that holds a slot table.
pub open spec fn vault_file(slot_bytes: Seq<u8>, salt: Seq<u8>) -> Seq<u8> {
    VAULT_MAGIC@ + seq![VAULT_VERSION] + salt + slot_bytes
}

/// The slot table and the header salt in a vault file.
pub open spec fn vault_contents(buf: Seq<u8>) -> Result<(Seq<u8>, Seq<u8>), VaultFileError> {
    if buf.len() < VAULT_HEADER_LEN {
        Err(VaultFileError::TooShort)
    } else if buf.subrange(0, 5) != VAULT_MAGIC@ {
        Err(VaultFileError::NotAVault)
    } else if buf[5] != VAULT_VERSION {
        Err(VaultFileError::UnsupportedVersion)
    } else {
        Ok(
            (
                buf.subrange(VAULT_HEADER_LEN as int, buf.len() as int),
                buf.subrange(6, VAULT_HEADER_LEN as int),
            ),
        )
    }
}

/// The sealed file that holds a nonce and a ciphertext.
pub open spec fn blob_bytes(nonce: Seq<u8>, ct: Seq<u8>) -> Seq<u8> {
    seq![BLOB_XCHACHA, (nonce.len() % 256) as u8] + nonce + ct
}

/// The nonce and the ciphertext in a sealed file. The algorithm byte is not
/// looked at.
pub open spec fn blob_contents(blob: Seq<u8>) -> Result<(Seq<u8>, Seq<u8>), BlobError> {
    if blob.len() < 2 {
        Err(BlobError::TooShort)
    } else if blob.len() < 2 + blob[1] {
        Err(BlobError::Corrupt)
    } else {
        Ok((blob.subrange(2, 2 + blob[1]), blob.subrange(2 + blob[1], blob.len() as int)))
    }
}

/// Law: what was written to a vault file is read back from it.
pub proof fn law_vault_file_round_trip(slot_bytes: Seq<u8>, salt: Seq<u8>)
    requires
        salt.len() == 32,
    ensures
        vault_contents(vault_file(slot_bytes, salt)) == Ok::<(Seq<u8>, Seq<u8>), VaultFileError>(
            (slot_bytes, salt),
        ),
{
    let buf = vault_file(slot_bytes, salt);
    assert(buf.subrange(0, 5) =~= VAULT_MAGIC@);
    assert(buf.subrange(6, VAULT_HEADER_LEN as int) =~= salt);
    assert(buf.subrange(VAULT_HEADER_LEN as int, buf.len() as int) =~= slot_bytes);
}

/// Law: a file that is read as a vault file is the vault file of what was read.
pub proof fn law_vault_file_is_canonical(buf: Seq<u8>, slot_bytes: Seq<u8>, salt: Seq<u8>)
    requires
        vault_contents(buf) == Ok::<(Seq<u8>, Seq<u8>), VaultFileError>((slot_bytes, salt)),
    ensures
        vault_file(slot_bytes, salt) == buf,
{
    assert(buf =~= buf.subrange(0, 5) + seq![buf[5]] + salt + slot_bytes);
}

/// Law: what was written to a sealed file is read back from it.
pub proof fn law_blob_round_trip(nonce: Seq<u8>, ct: Seq<u8>)
    requires
        nonce.len() <= 255,
    ensures
        blob_contents(blob_bytes(nonce, ct)) == Ok::<(Seq<u8>, Seq<u8>), BlobError>((nonce, ct)),
{
    let blob = blob_bytes(nonce, ct);
    assert(blob.subrange(2, 2 + blob[1]) =~= nonce);
    assert(blob.subrange(2 + blob[1], blob.len() as int) =~= ct);
}

/// Writes a vault file.
pub fn write_vault(slot_bytes: &[u8], salt: &[u8; 32]) -> (file: Vec<u8>)
    ensures
        file@ == vault_file(slot_bytes@, salt@),
{
    let mut out: Vec<u8> = Vec::new();
    append(&mut out, VAULT_MAGIC);
    out.push(VAULT_VERSION);
    append(&mut out, salt);
    append(&mut out, slot_bytes);
    assert(out@ =~= vault_file(slot_bytes@, salt@));
    out
}

/// Reads a vault file. Returns the slot table and the header salt.
pub fn read_vault(buf: &[u8]) -> (result: Result<(Vec<u8>, [u8; 32]), VaultFileError>)
    ensures
        match result {
            Ok((slot_bytes, salt)) => vault_contents(buf@) == Ok::<
                (Seq<u8>, Seq<u8>),
                VaultFileError,
            >((slot_bytes@, salt@)),
            Err(e) => vault_contents(buf@) == Err::<(Seq<u8>, Seq<u8>), VaultFileError>(e),
        },
{
    if buf.len() < VAULT_HEADER_LEN {
        return Err(VaultFileError::TooShort);
    }
    if !same(&buf[0..5], VAULT_MAGIC) {
        return Err(VaultFileError::NotAVault);
    }
    if buf[5] != VAULT_VERSION {
        return Err(VaultFileError::UnsupportedVersion);
    }
    Ok(
        (
            slice_to_vec(&buf[VAULT_HEADER_LEN..buf.len()]),
            array_from(&buf[6..VAULT_HEADER_LEN]),
        ),
    )
}

/// Writes a sealed file.
pub fn write_blob(nonce: &[u8], ct: &[u8]) -> (blob: Vec<u8>)
    ensures
        blob@ == blob_bytes(nonce@, ct@),
{
    let mut blob: Vec<u8> = Vec::new();
    blob.push(BLOB_XCHACHA);
    blob.push((nonce.len() % 256) as u8);
    append(&mut blob, nonce);
    append(&mut blob, ct);
    assert(blob@ =~= blob_bytes(nonce@, ct@));
    blob
}

/// Reads a sealed file. Returns the nonce and the ciphertext.
pub fn read_blob(blob: &[u8]) -> (result: Result<(&[u8], &[u8]), BlobError>)
    ensures
        match result {
            Ok((nonce, ct)) => blob_contents(blob@) == Ok::<(Seq<u8>, Seq<u8>), BlobError>(
                (nonce@, ct@),
            ),
            Err(e) => blob_contents(blob@) == Err::<(Seq<u8>, Seq<u8>), BlobError>(e),
        },
{
    if blob.len() < 2 {
        return Err(BlobError::TooShort);
    }
    let nonce_len: usize = blob[1] as usize;
    if blob.len() - 2 < nonce_len {
        return Err(BlobError::Corrupt);
    }
    Ok((&blob[2..2 + nonce_len], &blob[2 + nonce_len..blob.len()]))
}

/// Law: where each part of a vault file stands: the magic bytes `AEGIS`, the
/// version, the header salt, and the slot table.
pub proof fn law_vault_file_layout(slot_bytes: Seq<u8>, salt: Seq<u8>)
    requires
        salt.len() == 32,
    ensures
        ({
            let f = vault_file(slot_bytes, salt);
            &&& f.len() == 38 + slot_bytes.len()
            &&& f[0] == 0x41 && f[1] == 0x45 && f[2] == 0x47 && f[3] == 0x49 && f[4] == 0x53
            &&& f[5] == 1
            &&& f.subrange(6, 38) == salt
            &&& f.subrange(38, f.len() as int) == slot_bytes
        }),
{
    let f = vault_file(slot_bytes, salt);
    assert(f.subrange(6, 38) =~= salt);
    assert(f.subrange(38, f.len() as int) =~= slot_bytes);
}

/// Law: which files are read as vault files and what is read, and with which
/// error the others are refused.
pub proof fn law_read_vault_files(buf: Seq<u8>)
    ensures
        ({
            let magic = buf[0] == 0x41 && buf[1] == 0x45 && buf[2] == 0x47 && buf[3] == 0x49
                && buf[4] == 0x53;
            vault_contents(buf) == (if buf.len() < 38 {
                Err::<(Seq<u8>, Seq<u8>), VaultFileError>(VaultFileError::TooShort)
            } else if !magic {
                Err(VaultFileError::NotAVault)
            } else if buf[5] != 1 {
                Err(VaultFileError::UnsupportedVersion)
            } else {
                Ok((buf.subrange(38, buf.len() as int), buf.subrange(6, 38)))
            })
        }),
{
    if buf.len() >= 38 {
        let head = buf.subrange(0, 5);
        assert(head[0] == buf[0] && head[1] == buf[1] && head[2] == buf[2] && head[3] == buf[3]
            && head[4] == buf[4]);
        if buf[0] == 0x41 && buf[1] == 0x45 && buf[2] == 0x47 && buf[3] == 0x49 && buf[4] == 0x53 {
            assert(head =~= VAULT_MAGIC@);
        }
    }
}

/// Law: where each part of a sealed file stands: the algorithm byte, the nonce
/// length, the nonce, and the ciphertext.
pub proof fn law_blob_layout(nonce: Seq<u8>, ct: Seq<u8>)
    ensures
        ({
            let b = blob_bytes(nonce, ct);
            &&& b.len() == 2 + nonce.len() + ct.len()
            &&& b[0] == 0
            &&& b[1] == nonce.len() % 256
            &&& b.subrange(2, 2 + nonce.len() as int) == nonce
            &&& b.subrange(2 + nonce.len() as int, b.len() as int) == ct
        }),
{
    let b = blob_bytes(nonce, ct);
    assert(b.subrange(2, 2 + nonce.len() as int) =~= nonce);
    assert(b.subrange(2 + nonce.len() as int, b.len() as int) =~= ct);
}

/// Law: which files are read as sealed files and what is read, and with which
/// error the others are refused.
pub proof fn law_read_blobs(blob: Seq<u8>)
    ensures
        blob_contents(blob) == (if blob.len() < 2 {
            Err::<(Seq<u8>, Seq<u8>), BlobError>(BlobError::TooShort)
        } else if blob.len() < 2 + blob[1] {
            Err(BlobError::Corrupt)
        } else {
            Ok((blob.subrange(2, 2 + blob[1]), blob.subrange(2 + blob[1], blob.len() as int)))
        }),
{
}

} // verus!

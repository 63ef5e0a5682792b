//! The outside functions that the library relies on.
//!
//! Every function of this module hands its arguments to one function of
//! another crate or of std. Its contract is believed, not proved: it repeats
//! what the source or the documentation of that function shows. Where a
//! result takes a whole algorithm to describe (a hash, a cipher), it gets a
//! name, and the rest of the library speaks of that name.

use aes_gcm::aead::{Aead, KeyInit, Payload};
use rand::RngCore;
use subtle::ConstantTimeEq;
use vstd::prelude::*;
use zeroize::Zeroize;

verus! {

/// The error of `argon2`.
#[verifier::external_type_specification]
#[verifier::external_body]
pub struct ExArgon2Error(argon2::Error);

/// The error of `hkdf` for an output that is too long.
#[verifier::external_type_specification]
#[verifier::external_body]
pub struct ExHkdfInvalidLength(hkdf::InvalidLength);

/// The error of the AEAD crates.
#[verifier::external_type_specification]
#[verifier::external_body]
pub struct ExAeadError(aes_gcm::Error);

/// A reading of the system clock.
#[verifier::external_type_specification]
#[verifier::external_body]
pub struct ExSystemTime(std::time::SystemTime);

/// The error of a clock reading that lies before its reference point.
#[verifier::external_type_specification]
#[verifier::external_body]
pub struct ExSystemTimeError(std::time::SystemTimeError);

/// The sink of `Debug` output.
#[verifier::external_type_specification]
#[verifier::external_body]
pub struct ExFormatter<'a>(core::fmt::Formatter<'a>);

/// The builder of a `Debug` output with named fields.
#[verifier::external_type_specification]
#[verifier::external_body]
pub struct ExDebugStruct<'a, 'b: 'a>(core::fmt::DebugStruct<'a, 'b>);

/// The error of a `Debug` sink.
#[verifier::external_type_specification]
#[verifier::external_body]
pub struct ExFmtError(core::fmt::Error);

/// `Zeroize::zeroize` on a byte slice: every byte becomes zero and the length
/// stays. The writes are volatile, so they happen although nothing reads the
/// bytes afterwards; a contract cannot speak of that.
#[verifier::external_body]
pub(crate) fn zeroize_bytes(bytes: &mut [u8])
    ensures
        final(bytes)@ == Seq::new(old(bytes)@.len(), |i: int| 0u8),
    opens_invariants none
    no_unwind
{
    bytes.zeroize()
}

/// `Vec::into_boxed_slice`: the same bytes, in a buffer that cannot grow.
#[verifier::external_body]
pub(crate) fn into_boxed_slice(bytes: Vec<u8>) -> (boxed: Box<[u8]>)
    ensures
        boxed@ == bytes@,
{
    bytes.into_boxed_slice()
}

/// `ConstantTimeEq::ct_eq` of `subtle` on two bytes: whether they are equal.
/// Its running time does not depend on the bytes; a contract cannot speak of
/// that.
#[verifier::external_body]
pub(crate) fn ct_eq_byte(a: u8, b: u8) -> (equal: bool)
    ensures
        equal == (a == b),
{
    bool::from(a.ct_eq(&b))
}

/// `ConstantTimeEq::ct_eq` of `subtle` on two byte slices: whether they have
/// the same length and the same bytes.
#[verifier::external_body]
pub(crate) fn ct_eq_slice(a: &[u8], b: &[u8]) -> (equal: bool)
    ensures
        equal == (a@ == b@),
{
    bool::from(a.ct_eq(b))
}

/// Evidence of a draw from the operating system's random generator. It can be
/// had from [`random_bytes`] alone: nothing else makes a value of this type. It
/// does not hold the bytes when the program runs.
pub struct Draw {
    bytes: Ghost<Seq<u8>>,
}

impl Draw {
    /// The bytes that were drawn.
    pub closed spec fn bytes(&self) -> Seq<u8> {
        self.bytes@
    }
}

/// Whether bytes are what a draw gave.
pub open spec fn is_drawn(bytes: Seq<u8>) -> bool {
    exists|draw: Draw| #[trigger] draw.bytes() == bytes
}

/// The operating system's random generator, `OsRng::fill_bytes`: `N` bytes of
/// which nothing is known but that they are what this draw gave. It panics
/// where the operating system has no randomness to give.
#[verifier::external_body]
pub(crate) fn random_bytes<const N: usize>() -> (drawn: ([u8; N], Draw))
    ensures
        drawn.1.bytes() == drawn.0@,
{
    let mut bytes = [0u8; N];
    rand::rngs::OsRng.fill_bytes(&mut bytes);
    (bytes, Draw { bytes: Ghost(bytes@) })
}

/// The inputs that Argon2id accepts, for a 32-byte output.
pub open spec fn argon2id_accepts(
    password_len: nat,
    salt_len: nat,
    m_cost: u32,
    t_cost: u32,
    lanes: u32,
) -> bool {
    &&& m_cost >= 8
    &&& m_cost >= 8 * lanes
    &&& t_cost >= 1
    &&& password_len <= 0xffff_ffff
    &&& 8 <= salt_len <= 0xffff_ffff
}

/// The 32 bytes that Argon2id (version 0x13) derives.
pub uninterp spec fn argon2id_tag(
    password: Seq<u8>,
    salt: Seq<u8>,
    m_cost: u32,
    t_cost: u32,
    lanes: u32,
) -> [u8; 32];

/// `Argon2::hash_password_into` of `argon2`, for Argon2id in version 0x13,
/// with the parameters that `Params::new` makes of the costs: it succeeds
/// exactly on the inputs that [`argon2id_accepts`] describes, and then fills
/// `out` with [`argon2id_tag`]. It needs `m_cost` KiB of memory.
#[verifier::external_body]
pub(crate) fn argon2id_into(
    password: &[u8],
    salt: &[u8],
    m_cost: u32,
    t_cost: u32,
    lanes: u32,
    out: &mut [u8; 32],
) -> (result: Result<(), argon2::Error>)
    requires
        1 <= lanes <= 0xff_ffff,
    ensures
        result is Ok <==> argon2id_accepts(password@.len(), salt@.len(), m_cost, t_cost, lanes),
        result is Ok ==> *final(out) == argon2id_tag(password@, salt@, m_cost, t_cost, lanes),
{
    let params = argon2::Params::new(m_cost, t_cost, lanes, Some(out.len()))?;
    let argon2id =
        argon2::Argon2::new(argon2::Algorithm::Argon2id, argon2::Version::V0x13, params);
    argon2id.hash_password_into(password, salt, out)
}

/// The first 32 bytes of HKDF-SHA-256 output.
pub uninterp spec fn hkdf_sha256_okm(ikm: Seq<u8>, salt: Seq<u8>, info: Seq<u8>) -> [u8; 32];

/// `Hkdf::<Sha256>::expand` of `hkdf` after `Hkdf::new`: the output key
/// material is [`hkdf_sha256_okm`]. Expansion only fails for more than
/// 255 * 32 bytes of output, and 32 are asked for.
#[verifier::external_body]
pub(crate) fn hkdf_sha256_expand(
    ikm: &[u8],
    salt: &[u8],
    info: &[u8],
    okm: &mut [u8; 32],
) -> (result: Result<(), hkdf::InvalidLength>)
    ensures
        result is Ok,
        *final(okm) == hkdf_sha256_okm(ikm@, salt@, info@),
{
    hkdf::Hkdf::<sha2::Sha256>::new(Some(salt), ikm).expand(info, okm)
}

/// The keyed BLAKE3 hash.
pub uninterp spec fn blake3_keyed_hash(key: Seq<u8>, input: Seq<u8>) -> [u8; 32];

/// `blake3::keyed_hash`: the result is [`blake3_keyed_hash`].
#[verifier::external_body]
pub(crate) fn blake3_keyed(key: &[u8; 32], input: &[u8]) -> (hash: [u8; 32])
    ensures
        hash == blake3_keyed_hash(key@, input@),
{
    *blake3::keyed_hash(key, input).as_bytes()
}

/// The lengths that AES-256-GCM encrypts: up to 2^36 bytes of plaintext and of
/// associated data.
pub open spec fn aes256gcm_accepts(plaintext_len: nat, aad_len: nat) -> bool {
    plaintext_len <= 0x10_0000_0000 && aad_len <= 0x10_0000_0000
}

/// The ciphertext, followed by the 16-byte tag, that AES-256-GCM makes.
pub uninterp spec fn aes256gcm_ciphertext(
    key: Seq<u8>,
    nonce: Seq<u8>,
    plaintext: Seq<u8>,
    aad: Seq<u8>,
) -> Seq<u8>;

/// The plaintext that AES-256-GCM recovers, if the tag is right.
pub uninterp spec fn aes256gcm_plaintext(
    key: Seq<u8>,
    nonce: Seq<u8>,
    ciphertext: Seq<u8>,
    aad: Seq<u8>,
) -> Option<Seq<u8>>;

/// `Aead::encrypt` of `aes_gcm::Aes256Gcm`: it succeeds exactly on the lengths
/// that [`aes256gcm_accepts`] describes. The result is
/// [`aes256gcm_ciphertext`], 16 bytes longer than the plaintext, and
/// decryption gives the plaintext back.
#[verifier::external_body]
pub(crate) fn aes256gcm_encrypt(
    key: &[u8],
    nonce: &[u8],
    plaintext: &[u8],
    aad: &[u8],
) -> (result: Result<Vec<u8>, aes_gcm::Error>)
    requires
        key@.len() == 32,
        nonce@.len() == 12,
    ensures
        result is Ok <==> aes256gcm_accepts(plaintext@.len(), aad@.len()),
        result matches Ok(ct) ==> {
            &&& ct@ == aes256gcm_ciphertext(key@, nonce@, plaintext@, aad@)
            &&& ct@.len() == plaintext@.len() + 16
            &&& aes256gcm_plaintext(key@, nonce@, ct@, aad@) == Some(plaintext@)
        },
{
    aes_gcm::Aes256Gcm::new(aes_gcm::Key::<aes_gcm::Aes256Gcm>::from_slice(key))
        .encrypt(aes_gcm::Nonce::from_slice(nonce), Payload { msg: plaintext, aad })
}

/// `Aead::decrypt` of `aes_gcm::Aes256Gcm`: the result is
/// [`aes256gcm_plaintext`], an error standing for `None`. A plaintext is 16
/// bytes shorter than its ciphertext. It comes only out of the ciphertext that
/// encryption makes of it, where it has a length that encryption accepts.
#[verifier::external_body]
pub(crate) fn aes256gcm_decrypt(
    key: &[u8],
    nonce: &[u8],
    ciphertext: &[u8],
    aad: &[u8],
) -> (result: Result<Vec<u8>, aes_gcm::Error>)
    requires
        key@.len() == 32,
        nonce@.len() == 12,
    ensures
        result matches Ok(pt) ==> {
            &&& aes256gcm_plaintext(key@, nonce@, ciphertext@, aad@) == Some(pt@)
            &&& ciphertext@.len() == pt@.len() + 16
            &&& aes256gcm_accepts(pt@.len(), aad@.len()) ==> ciphertext@ == aes256gcm_ciphertext(
                key@,
                nonce@,
                pt@,
                aad@,
            )
        },
        result is Err ==> aes256gcm_plaintext(key@, nonce@, ciphertext@, aad@) is None,
{
    aes_gcm::Aes256Gcm::new(aes_gcm::Key::<aes_gcm::Aes256Gcm>::from_slice(key))
        .decrypt(aes_gcm::Nonce::from_slice(nonce), Payload { msg: ciphertext, aad })
}

/// The lengths at which the keystream of XChaCha20-Poly1305 runs out inside
/// the last block: `chacha20poly1305` lets them pass its length test and then
/// panics.
pub open spec fn xchacha20poly1305_runs_out(plaintext_len: int) -> bool {
    0x3f_ffff_ff80 < plaintext_len < 0x3f_ffff_ffc0
}

/// The ciphertext, followed by the 16-byte tag, that XChaCha20-Poly1305 makes.
pub uninterp spec fn xchacha20poly1305_ciphertext(
    key: Seq<u8>,
    nonce: Seq<u8>,
    plaintext: Seq<u8>,
    aad: Seq<u8>,
) -> Seq<u8>;

/// The plaintext that XChaCha20-Poly1305 recovers, if the tag is right.
pub uninterp spec fn xchacha20poly1305_plaintext(
    key: Seq<u8>,
    nonce: Seq<u8>,
    ciphertext: Seq<u8>,
    aad: Seq<u8>,
) -> Option<Seq<u8>>;

/// `Aead::encrypt` of `chacha20poly1305::XChaCha20Poly1305`: it succeeds
/// exactly on plaintexts below 2^38 - 64 bytes. The result is
/// [`xchacha20poly1305_ciphertext`], 16 bytes longer than the plaintext, and
/// decryption gives the plaintext back.
#[verifier::external_body]
pub(crate) fn xchacha20poly1305_encrypt(
    key: &[u8],
    nonce: &[u8],
    plaintext: &[u8],
    aad: &[u8],
) -> (result: Result<Vec<u8>, aes_gcm::Error>)
    requires
        key@.len() == 32,
        nonce@.len() == 24,
        !xchacha20poly1305_runs_out(plaintext@.len() as int),
    ensures
        result is Ok <==> plaintext@.len() < 0x3f_ffff_ffc0,
        result matches Ok(ct) ==> {
            &&& ct@ == xchacha20poly1305_ciphertext(key@, nonce@, plaintext@, aad@)
            &&& ct@.len() == plaintext@.len() + 16
            &&& xchacha20poly1305_plaintext(key@, nonce@, ct@, aad@) == Some(plaintext@)
        },
{
    chacha20poly1305::XChaCha20Poly1305::new(chacha20poly1305::Key::from_slice(key))
        .encrypt(chacha20poly1305::XNonce::from_slice(nonce), Payload { msg: plaintext, aad })
}

/// `Aead::decrypt` of `chacha20poly1305::XChaCha20Poly1305`: the result is
/// [`xchacha20poly1305_plaintext`], an error standing for `None`. A plaintext
/// is 16 bytes shorter than its ciphertext, is below 2^38 - 64 bytes, and comes
/// only out of the ciphertext that encryption makes of it.
#[verifier::external_body]
pub(crate) fn xchacha20poly1305_decrypt(
    key: &[u8],
    nonce: &[u8],
    ciphertext: &[u8],
    aad: &[u8],
) -> (result: Result<Vec<u8>, aes_gcm::Error>)
    requires
        key@.len() == 32,
        nonce@.len() == 24,
        !xchacha20poly1305_runs_out(ciphertext@.len() - 16),
    ensures
        result matches Ok(pt) ==> {
            &&& xchacha20poly1305_plaintext(key@, nonce@, ciphertext@, aad@) == Some(pt@)
            &&& ciphertext@.len() == pt@.len() + 16
            &&& pt@.len() < 0x3f_ffff_ffc0
            &&& ciphertext@ == xchacha20poly1305_ciphertext(key@, nonce@, pt@, aad@)
        },
        result is Err ==> xchacha20poly1305_plaintext(key@, nonce@, ciphertext@, aad@) is None,
{
    chacha20poly1305::XChaCha20Poly1305::new(chacha20poly1305::Key::from_slice(key))
        .decrypt(chacha20poly1305::XNonce::from_slice(nonce), Payload { msg: ciphertext, aad })
}

/// `SystemTime::now`: a clock reading, of which nothing is known.
pub assume_specification[ std::time::SystemTime::now ]() -> std::time::SystemTime;

/// `Duration::as_secs`: the whole seconds of a span. Spans come from the
/// clock, so nothing is stated of them.
pub assume_specification[ std::time::Duration::as_secs ](span: &std::time::Duration) -> u64;

/// `SystemTime::duration_since`, from the Unix epoch: the span up to a clock
/// reading, or an error where the clock reads earlier than the epoch. Neither
/// is known beforehand.
#[verifier::external_body]
pub(crate) fn since_unix_epoch(reading: std::time::SystemTime) -> Result<
    std::time::Duration,
    std::time::SystemTimeError,
> {
    reading.duration_since(std::time::UNIX_EPOCH)
}

/// `Formatter::write_str`: it hands a text to the sink of a `Debug` output.
/// Whether the sink takes it is up to the sink.
pub assume_specification<'a>[ core::fmt::Formatter::<'a>::write_str ](
    f: &mut core::fmt::Formatter<'a>,
    data: &str,
) -> core::fmt::Result;

/// `Formatter::debug_struct`: it begins a `Debug` output with a name. How the
/// output looks is up to the flags of the formatter, and where it goes is up
/// to the sink, so nothing is stated.
pub assume_specification<'a, 'b>[ core::fmt::Formatter::<'a>::debug_struct ](
    f: &'b mut core::fmt::Formatter<'a>,
    name: &str,
) -> core::fmt::DebugStruct<'b, 'a>;

/// `DebugStruct::finish_non_exhaustive`: it ends a `Debug` output and marks it
/// as incomplete. Whether the sink took it all is up to the sink.
pub assume_specification<'a, 'b: 'a>[ core::fmt::DebugStruct::<'a, 'b>::finish_non_exhaustive ](
    out: &mut core::fmt::DebugStruct<'a, 'b>,
) -> core::fmt::Result;

/// `DebugStruct::field`: it hands a named field to the output. What becomes of
/// it is up to the flags of the formatter and to the sink, so nothing is
/// stated.
#[verifier::external_body]
pub(crate) fn debug_field<T: core::fmt::Debug>(
    out: &mut core::fmt::DebugStruct<'_, '_>,
    name: &str,
    value: &T,
) {
    out.field(name, value);
}

} // verus!

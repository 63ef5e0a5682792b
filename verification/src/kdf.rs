//! Key derivation: Argon2id from passphrases, HKDF-SHA-256 from keys.

use crate::aegis_key::AegisKey;
use crate::error::{AegisError, Result};
use crate::primitives::{
    argon2id_accepts, argon2id_into, argon2id_tag, hkdf_sha256_expand, hkdf_sha256_okm,
    zeroize_bytes,
};
use vstd::prelude::*;

verus! {

/// Length of the master key in bytes.
pub const MASTER_LEN: usize = 32;

/// Number of Argon2id lanes.
pub const ARGON2_LANES: u32 = 1;

/// The key that Argon2id derives from a passphrase, if it accepts the lengths
/// and costs.
pub open spec fn passphrase_key(
    passphrase: Seq<u8>,
    salt: Seq<u8>,
    memory_kib: u32,
    iterations: u32,
) -> Option<Seq<u8>> {
    if argon2id_accepts(passphrase.len(), salt.len(), memory_kib, iterations, ARGON2_LANES) {
        Some(argon2id_tag(passphrase, salt, memory_kib, iterations, ARGON2_LANES)@)
    } else {
        None
    }
}

/// Derives a 256-bit key from a passphrase with Argon2id. `memory_kib` is the
/// memory cost in KiB, `iterations` the time cost; there is one lane.
pub fn argon2id_root(
    passphrase: &[u8],
    salt: &[u8],
    memory_kib: u32,
    iterations: u32,
) -> (result: Result<AegisKey>)
    ensures
        match result {
            Ok(key) => passphrase_key(passphrase@, salt@, memory_kib, iterations) == Some(key@),
            Err(e) => e is Argon2 && passphrase_key(
                passphrase@,
                salt@,
                memory_kib,
                iterations,
            ) is None,
        },
        result matches Ok(key) ==> key@.len() == MASTER_LEN,
        result matches Ok(key) ==> key@ == argon2id_tag(
            passphrase@,
            salt@,
            memory_kib,
            iterations,
            1,
        )@,
        result is Ok <==> memory_kib >= 8 && iterations >= 1 && passphrase@.len() <= 0xffff_ffff
            && 8 <= salt@.len() <= 0xffff_ffff,
{
    let mut out: [u8; MASTER_LEN] = [0u8; MASTER_LEN];
    let outcome = argon2id_into(
        passphrase,
        salt,
        memory_kib,
        iterations,
        ARGON2_LANES,
        &mut out,
    );
    let result = match outcome {
        Ok(()) => Ok(AegisKey::new(&out)),
        Err(_) => Err(AegisError::Argon2),
    };
    zeroize_bytes(&mut out);
    result
}

/// HKDF-SHA-256 with a 32-byte output. `salt` and `info` are public.
pub fn hkdf_sha256(ikm: &[u8], salt: &[u8], info: &[u8]) -> (result: Result<[u8; 32]>)
    ensures
        result matches Ok(okm) && okm == hkdf_sha256_okm(ikm@, salt@, info@),
{
    let mut okm: [u8; 32] = [0u8; 32];
    match hkdf_sha256_expand(ikm, salt, info, &mut okm) {
        Ok(()) => Ok(okm),
        Err(_) => Err(AegisError::Hkdf),
    }
}

/// Law: the key of a passphrase is the Argon2id tag of the whole passphrase and
/// the whole salt, at these costs and with one lane. There is one for every
/// passphrase and salt that Argon2id takes.
pub proof fn law_passphrase_key_is_argon2id(
    passphrase: Seq<u8>,
    salt: Seq<u8>,
    memory_kib: u32,
    iterations: u32,
)
    ensures
        passphrase_key(passphrase, salt, memory_kib, iterations) is Some <==> memory_kib >= 8
            && iterations >= 1 && passphrase.len() <= 0xffff_ffff && 8 <= salt.len()
            <= 0xffff_ffff,
        passphrase_key(passphrase, salt, memory_kib, iterations) matches Some(key) ==> key
            == argon2id_tag(passphrase, salt, memory_kib, iterations, 1)@,
{
}

/// Law: two inputs that give the same key are a collision of Argon2id: no byte
/// of a passphrase or a salt, and no cost, is left out on the way to it.
pub proof fn law_equal_keys_are_an_argon2id_collision(
    first: (Seq<u8>, Seq<u8>, u32, u32),
    second: (Seq<u8>, Seq<u8>, u32, u32),
)
    requires
        passphrase_key(first.0, first.1, first.2, first.3) is Some,
        passphrase_key(first.0, first.1, first.2, first.3) == passphrase_key(
            second.0,
            second.1,
            second.2,
            second.3,
        ),
    ensures
        argon2id_tag(first.0, first.1, first.2, first.3, 1)@ == argon2id_tag(
            second.0,
            second.1,
            second.2,
            second.3,
            1,
        )@,
{
}

} // verus!

//! Authenticated encryption.
//!
//! Two ciphers: XChaCha20-Poly1305 with a 24-byte nonce, the default for bulk
//! data, and AES-256-GCM with a 12-byte nonce, which wraps master keys in key
//! slots. Nonces are drawn from the operating system.

use crate::aegis_key::AegisKey;
use crate::error::{AegisError, Result};
use crate::primitives::{
    aes256gcm_accepts, aes256gcm_ciphertext, aes256gcm_decrypt, aes256gcm_encrypt,
    aes256gcm_plaintext, is_drawn, random_bytes, Draw, xchacha20poly1305_ciphertext, xchacha20poly1305_decrypt,
    xchacha20poly1305_encrypt, xchacha20poly1305_plaintext, xchacha20poly1305_runs_out,
};
use vstd::prelude::*;
use vstd::slice::slice_to_vec;

verus! {

/// An AEAD algorithm.
#[derive(Debug, Clone, Copy, PartialEq, Eq, Structural)]
pub enum AeadAlgo {
    /// AES-256-GCM with a 12-byte nonce.
    Aes256Gcm,
    /// XChaCha20-Poly1305 with a 24-byte nonce.
    XChaCha20Poly1305,
}

/// The nonce length of an algorithm.
pub open spec fn nonce_len(algo: AeadAlgo) -> nat {
    match algo {
        AeadAlgo::Aes256Gcm => 12,
        AeadAlgo::XChaCha20Poly1305 => 24,
    }
}

/// Whether a message can be handed to the cipher at all. The lengths left out
/// are 63 lengths of nearly 2^38 bytes on which XChaCha20-Poly1305 runs out of
/// keystream.
pub open spec fn can_seal(algo: AeadAlgo, plaintext_len: nat) -> bool {
    !(algo is XChaCha20Poly1305 && xchacha20poly1305_runs_out(plaintext_len as int))
}

/// Whether a message of `plaintext_len` bytes can be handed to the cipher.
pub fn is_sealable(algo: AeadAlgo, plaintext_len: usize) -> (sealable: bool)
    ensures
        sealable == can_seal(algo, plaintext_len as nat),
{
    let len: u64 = plaintext_len as u64;
    !(algo == AeadAlgo::XChaCha20Poly1305 && 0x3f_ffff_ff80 < len && len < 0x3f_ffff_ffc0)
}

/// The lengths that an algorithm seals.
pub open spec fn seals(algo: AeadAlgo, plaintext_len: nat, aad_len: nat) -> bool {
    match algo {
        AeadAlgo::Aes256Gcm => aes256gcm_accepts(plaintext_len, aad_len),
        AeadAlgo::XChaCha20Poly1305 => plaintext_len < 0x3f_ffff_ffc0,
    }
}

/// The ciphertext, with its tag, of a message.
pub open spec fn sealed(
    algo: AeadAlgo,
    key: Seq<u8>,
    nonce: Seq<u8>,
    plaintext: Seq<u8>,
    aad: Seq<u8>,
) -> Seq<u8> {
    match algo {
        AeadAlgo::Aes256Gcm => aes256gcm_ciphertext(key, nonce, plaintext, aad),
        AeadAlgo::XChaCha20Poly1305 => xchacha20poly1305_ciphertext(key, nonce, plaintext, aad),
    }
}

/// The message that a ciphertext opens to. It opens to nothing with a nonce of
/// the wrong length, nor where the cipher could not have made it.
pub open spec fn opened(
    algo: AeadAlgo,
    key: Seq<u8>,
    nonce: Seq<u8>,
    ciphertext: Seq<u8>,
    aad: Seq<u8>,
) -> Option<Seq<u8>> {
    if nonce.len() != nonce_len(algo) {
        None
    } else {
        match algo {
            AeadAlgo::Aes256Gcm => aes256gcm_plaintext(key, nonce, ciphertext, aad),
            AeadAlgo::XChaCha20Poly1305 => if xchacha20poly1305_runs_out(ciphertext.len() - 16) {
                None
            } else {
                xchacha20poly1305_plaintext(key, nonce, ciphertext, aad)
            },
        }
    }
}

/// A cipher bound to a 256-bit key. The key is wiped when it is dropped.
pub struct AeadCipher {
    algo: AeadAlgo,
    key: AegisKey,
}

impl AeadCipher {
    #[verifier::type_invariant]
    spec fn key_is_256_bits(self) -> bool {
        self.key@.len() == 32
    }

    /// The algorithm.
    pub closed spec fn algo(&self) -> AeadAlgo {
        self.algo
    }

    /// The key.
    pub closed spec fn key(&self) -> Seq<u8> {
        self.key@
    }

    /// Binds a cipher to a key. The key is copied.
    pub fn new(algo: AeadAlgo, key: &[u8; 32]) -> (cipher: Self)
        ensures
            cipher.algo() == algo,
            cipher.key() == key@,
    {
        Self::with_key(algo, key)
    }

    /// Binds a cipher to the bytes of a 256-bit key.
    pub(crate) fn with_key(algo: AeadAlgo, key: &[u8]) -> (cipher: Self)
        requires
            key@.len() == 32,
        ensures
            cipher.algo() == algo,
            cipher.key() == key@,
    {
        AeadCipher { algo, key: AegisKey::new(key) }
    }

    /// Seals `plaintext` with `aad` under a fresh random nonce. Returns the
    /// nonce and the ciphertext with its tag.
    ///
    /// What was sealed opens again with the same key, nonce and `aad`.
    pub fn seal(&self, plaintext: &[u8], aad: &[u8]) -> (result: Result<(Vec<u8>, Vec<u8>)>)
        requires
            can_seal(self.algo(), plaintext@.len()),
        ensures
            result is Ok <==> seals(self.algo(), plaintext@.len(), aad@.len()),
            result matches Err(e) ==> e is AeadSeal,
            result matches Ok((nonce, ct)) ==> {
                &&& nonce@.len() == nonce_len(self.algo())
                &&& is_drawn(nonce@)
                &&& ct@ == sealed(self.algo(), self.key(), nonce@, plaintext@, aad@)
                &&& ct@.len() == plaintext@.len() + 16
                &&& opened(self.algo(), self.key(), nonce@, ct@, aad@) == Some(plaintext@)
            },
            result matches Ok((nonce, ct)) ==> match self.algo() {
                AeadAlgo::Aes256Gcm => nonce@.len() == 12 && ct@ == aes256gcm_ciphertext(
                    self.key(),
                    nonce@,
                    plaintext@,
                    aad@,
                ),
                AeadAlgo::XChaCha20Poly1305 => nonce@.len() == 24 && ct@
                    == xchacha20poly1305_ciphertext(self.key(), nonce@, plaintext@, aad@),
            },
    {
        let nonce: Vec<u8> = match self.algo {
            AeadAlgo::Aes256Gcm => {
                let (bytes, _draw): ([u8; 12], Draw) = random_bytes();
                assert(is_drawn(bytes@));
                slice_to_vec(&bytes)
            },
            AeadAlgo::XChaCha20Poly1305 => {
                let (bytes, _draw): ([u8; 24], Draw) = random_bytes();
                assert(is_drawn(bytes@));
                slice_to_vec(&bytes)
            },
        };
        match self.seal_with_nonce(&nonce, plaintext, aad) {
            Ok(ct) => Ok((nonce, ct)),
            Err(e) => Err(e),
        }
    }

    /// Seals `plaintext` with `aad` under a given nonce, which must never be
    /// used twice with the same key. Returns the ciphertext with its tag.
    pub fn seal_with_nonce(&self, nonce: &[u8], plaintext: &[u8], aad: &[u8]) -> (result: Result<
        Vec<u8>,
    >)
        requires
            nonce@.len() == nonce_len(self.algo()),
            can_seal(self.algo(), plaintext@.len()),
        ensures
            result is Ok <==> seals(self.algo(), plaintext@.len(), aad@.len()),
            result matches Err(e) ==> e is AeadSeal,
            result matches Ok(ct) ==> {
                &&& ct@ == sealed(self.algo(), self.key(), nonce@, plaintext@, aad@)
                &&& ct@.len() == plaintext@.len() + 16
                &&& opened(self.algo(), self.key(), nonce@, ct@, aad@) == Some(plaintext@)
            },
            result matches Ok(ct) ==> match self.algo() {
                AeadAlgo::Aes256Gcm => nonce@.len() == 12 && ct@ == aes256gcm_ciphertext(
                    self.key(),
                    nonce@,
                    plaintext@,
                    aad@,
                ),
                AeadAlgo::XChaCha20Poly1305 => nonce@.len() == 24 && ct@
                    == xchacha20poly1305_ciphertext(self.key(), nonce@, plaintext@, aad@),
            },
    {
        proof {
            use_type_invariant(self);
        }
        let outcome = match self.algo {
            AeadAlgo::Aes256Gcm => aes256gcm_encrypt(self.key.expose(), nonce, plaintext, aad),
            AeadAlgo::XChaCha20Poly1305 => xchacha20poly1305_encrypt(
                self.key.expose(),
                nonce,
                plaintext,
                aad,
            ),
        };
        match outcome {
            Ok(ct) => Ok(ct),
            Err(_) => Err(AegisError::AeadSeal),
        }
    }

    /// Opens `ciphertext`, authenticated with `aad`, under `nonce`. Any
    /// authentication failure is [`AegisError::AeadOpen`].
    ///
    /// Only what sealing makes opens: the ciphertext is that of the message,
    /// where the message can be sealed at all.
    pub fn open(&self, nonce: &[u8], ciphertext: &[u8], aad: &[u8]) -> (result: Result<Vec<u8>>)
        ensures
            match result {
                Ok(pt) => opened(self.algo(), self.key(), nonce@, ciphertext@, aad@) == Some(pt@),
                Err(e) => e is AeadOpen && opened(
                    self.algo(),
                    self.key(),
                    nonce@,
                    ciphertext@,
                    aad@,
                ) is None,
            },
            result matches Ok(pt) ==> ciphertext@.len() == pt@.len() + 16,
            result matches Ok(pt) ==> seals(self.algo(), pt@.len(), aad@.len()) ==> ciphertext@
                == sealed(self.algo(), self.key(), nonce@, pt@, aad@),
            self.algo() is Aes256Gcm ==> match result {
                Ok(pt) => nonce@.len() == 12 && aes256gcm_plaintext(
                    self.key(),
                    nonce@,
                    ciphertext@,
                    aad@,
                ) == Some(pt@),
                Err(e) => nonce@.len() != 12 || aes256gcm_plaintext(
                    self.key(),
                    nonce@,
                    ciphertext@,
                    aad@,
                ) is None,
            },
            self.algo() is XChaCha20Poly1305 ==> match result {
                Ok(pt) => nonce@.len() == 24 && xchacha20poly1305_plaintext(
                    self.key(),
                    nonce@,
                    ciphertext@,
                    aad@,
                ) == Some(pt@),
                Err(e) => nonce@.len() != 24 || 0x3f_ffff_ff90 < ciphertext@.len() < 0x3f_ffff_ffd0
                    || xchacha20poly1305_plaintext(self.key(), nonce@, ciphertext@, aad@) is None,
            },
    {
        proof {
            use_type_invariant(self);
        }
        let outcome = match self.algo {
            AeadAlgo::Aes256Gcm => {
                if nonce.len() != 12 {
                    return Err(AegisError::AeadOpen);
                }
                aes256gcm_decrypt(self.key.expose(), nonce, ciphertext, aad)
            },
            AeadAlgo::XChaCha20Poly1305 => {
                if nonce.len() != 24 {
                    return Err(AegisError::AeadOpen);
                }
                // No message has a ciphertext of these lengths.
                let len: u64 = ciphertext.len() as u64;
                if 0x3f_ffff_ff90 < len && len < 0x3f_ffff_ffd0 {
                    return Err(AegisError::AeadOpen);
                }
                xchacha20poly1305_decrypt(self.key.expose(), nonce, ciphertext, aad)
            },
        };
        match outcome {
            Ok(pt) => Ok(pt),
            Err(_) => Err(AegisError::AeadOpen),
        }
    }
}

/// Law: what is sealed is the ciphertext of the algorithm, of the whole key,
/// nonce, message and associated data.
pub proof fn law_sealing_takes_everything(
    key: Seq<u8>,
    nonce: Seq<u8>,
    plaintext: Seq<u8>,
    aad: Seq<u8>,
)
    ensures
        sealed(AeadAlgo::Aes256Gcm, key, nonce, plaintext, aad) == aes256gcm_ciphertext(
            key,
            nonce,
            plaintext,
            aad,
        ),
        sealed(AeadAlgo::XChaCha20Poly1305, key, nonce, plaintext, aad)
            == xchacha20poly1305_ciphertext(key, nonce, plaintext, aad),
{
}

/// Law: what opens is what the algorithm accepts for the whole key, nonce,
/// ciphertext and associated data, and nothing else.
pub proof fn law_opening_takes_everything(
    key: Seq<u8>,
    nonce: Seq<u8>,
    ciphertext: Seq<u8>,
    aad: Seq<u8>,
)
    ensures
        nonce.len() == 12 ==> opened(AeadAlgo::Aes256Gcm, key, nonce, ciphertext, aad)
            == aes256gcm_plaintext(key, nonce, ciphertext, aad),
        nonce.len() != 12 ==> opened(AeadAlgo::Aes256Gcm, key, nonce, ciphertext, aad) is None,
        nonce.len() == 24 && !(0x3f_ffff_ff90 < ciphertext.len() < 0x3f_ffff_ffd0) ==> opened(
            AeadAlgo::XChaCha20Poly1305,
            key,
            nonce,
            ciphertext,
            aad,
        ) == xchacha20poly1305_plaintext(key, nonce, ciphertext, aad),
        nonce.len() != 24 || 0x3f_ffff_ff90 < ciphertext.len() < 0x3f_ffff_ffd0 ==> opened(
            AeadAlgo::XChaCha20Poly1305,
            key,
            nonce,
            ciphertext,
            aad,
        ) is None,
{
}

/// Law: a ciphertext that opens under two associated data is one that the
/// cipher itself accepts under both: no byte of them is left out.
pub proof fn law_accepted_aad_is_accepted_by_the_cipher(
    key: Seq<u8>,
    nonce: Seq<u8>,
    ciphertext: Seq<u8>,
    aad: Seq<u8>,
    other: Seq<u8>,
)
    requires
        opened(AeadAlgo::XChaCha20Poly1305, key, nonce, ciphertext, aad) is Some,
        opened(AeadAlgo::XChaCha20Poly1305, key, nonce, ciphertext, other) is Some,
    ensures
        xchacha20poly1305_plaintext(key, nonce, ciphertext, aad) is Some,
        xchacha20poly1305_plaintext(key, nonce, ciphertext, other) is Some,
{
}

/// Law: the nonce lengths, and which lengths can be sealed.
pub proof fn law_sealed_lengths(plaintext_len: nat, aad_len: nat)
    ensures
        nonce_len(AeadAlgo::Aes256Gcm) == 12,
        nonce_len(AeadAlgo::XChaCha20Poly1305) == 24,
        can_seal(AeadAlgo::Aes256Gcm, plaintext_len),
        can_seal(AeadAlgo::XChaCha20Poly1305, plaintext_len) <==> plaintext_len <= 0x3f_ffff_ff80
            || plaintext_len >= 0x3f_ffff_ffc0,
        seals(AeadAlgo::Aes256Gcm, plaintext_len, aad_len) <==> plaintext_len <= 0x10_0000_0000
            && aad_len <= 0x10_0000_0000,
        seals(AeadAlgo::XChaCha20Poly1305, plaintext_len, aad_len) <==> plaintext_len
            < 0x3f_ffff_ffc0,
{
}

} // verus!

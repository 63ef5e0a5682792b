//! The vault: a live master key, its hierarchy, and its key slots.

pub mod laws;

use crate::aead::{can_seal, nonce_len, opened, sealed, seals, AeadAlgo, AeadCipher};
use crate::aegis_key::AegisKey;
use crate::bytes::array_from;
use crate::error::{AegisError, Result};
use crate::hierarchy::{domain_key, Domain, KeyHierarchy, MASTER_SALT};
use crate::kdf::{argon2id_root, passphrase_key, MASTER_LEN};
use crate::primitives::{
    aes256gcm_ciphertext, aes256gcm_plaintext, argon2id_tag, hkdf_sha256_okm, is_drawn,
    xchacha20poly1305_ciphertext, xchacha20poly1305_plaintext, zeroize_bytes, Draw,
};
use crate::slots::encoding::{parsed_table, table_bytes};
use crate::slots::{
    check_volume, enabled_slots, extended_table, initial_table, revoked_slot, slot_enabled,
    slot_is_drawn, table_master, table_shape, volume_check, volume_verifier, KeySlotTable, TableModel,
    VolumeKeyRotation, MAX_SLOTS,
};
use vstd::prelude::*;

verus! {

/// What a vault holds. Its domain keys follow from the master key.
#[verifier::ext_equal]
pub struct VaultModel {
    pub master: Seq<u8>,
    pub slots: Option<TableModel>,
}

/// What holds of every vault: its master key has 256 bits, and its slot table,
/// if it has one, carries the check value of that master key, has an enabled
/// slot, and can be encoded.
pub open spec fn valid_vault(v: VaultModel) -> bool {
    &&& v.master.len() == MASTER_LEN
    &&& v.slots matches Some(t) ==> {
        &&& table_shape(t)
        &&& t.verifier == volume_check(v.master)
        &&& enabled_slots(t.slots) >= 1
        &&& t.slots.len() <= 255
    }
}

/// The vault that a slot table gives with a recovered master key, if the
/// master key matches the verifier of the table.
pub open spec fn checked_vault(t: TableModel, master: Seq<u8>) -> Result<VaultModel> {
    if volume_check(master) == t.verifier {
        Ok(VaultModel { master, slots: Some(t) })
    } else {
        Err(AegisError::VolumeMismatch)
    }
}

/// The vault that a persisted slot table gives with a passphrase.
pub open spec fn reopened(data: Seq<u8>, header_salt: Seq<u8>, passphrase: Seq<u8>) -> Result<
    VaultModel,
> {
    match parsed_table(data, header_salt) {
        Ok(t) => match table_master(t.slots, passphrase) {
            Some(master) => checked_vault(t, master),
            None => Err(AegisError::NoSlotUnsealed),
        },
        Err(e) => Err(e),
    }
}

/// A live, unlocked vault.
///
/// It holds the master key and the derived hierarchy, and may hold a slot
/// table with which access to the master key is persisted.
pub struct AegisVault {
    master: AegisKey,
    hierarchy: KeyHierarchy,
    slots: Option<KeySlotTable>,
}

impl View for AegisVault {
    type V = VaultModel;

    closed spec fn view(&self) -> VaultModel {
        VaultModel {
            master: self.master@,
            slots: match self.slots {
                Some(t) => Some(t@),
                None => None,
            },
        }
    }
}

impl AegisVault {
    #[verifier::type_invariant]
    spec fn is_consistent(self) -> bool {
        &&& valid_vault(self@)
        &&& self.hierarchy.derived_from(self.master@)
    }

    /// A vault around a raw 256-bit master key, without a slot table.
    pub fn from_master_key(mut master: [u8; MASTER_LEN]) -> (vault: Self)
        ensures
            vault@ == (VaultModel { master: master@, slots: None }),
            valid_vault(vault@),
    {
        let key = AegisKey::new32(&master);
        zeroize_bytes(&mut master);
        Self::from_key(key)
    }

    /// A vault around a 256-bit master key, without a slot table.
    pub fn from_key(master: AegisKey) -> (vault: Self)
        requires
            master@.len() == MASTER_LEN,
        ensures
            vault@ == (VaultModel { master: master@, slots: None }),
            valid_vault(vault@),
    {
        let hierarchy = match KeyHierarchy::from_master(master.expose()) {
            Ok(hierarchy) => hierarchy,
            Err(_) => vstd::pervasive::unreached(),
        };
        AegisVault { master, hierarchy, slots: None }
    }

    /// Unlocks, or creates, a vault from a passphrase: its master key is the
    /// one that Argon2id derives.
    pub fn unlock(
        passphrase: &[u8],
        salt: &[u8],
        memory_kib: u32,
        iterations: u32,
    ) -> (result: Result<Self>)
        ensures
            match result {
                Ok(vault) => {
                    &&& passphrase_key(passphrase@, salt@, memory_kib, iterations) == Some(
                        vault@.master,
                    )
                    &&& vault@.master == argon2id_tag(
                        passphrase@,
                        salt@,
                        memory_kib,
                        iterations,
                        1,
                    )@
                    &&& vault@.slots is None
                    &&& valid_vault(vault@)
                },
                Err(e) => {
                    &&& e is Argon2
                    &&& passphrase_key(passphrase@, salt@, memory_kib, iterations) is None
                },
            },
    {
        match argon2id_root(passphrase, salt, memory_kib, iterations) {
            Ok(master) => Ok(Self::from_key(master)),
            Err(e) => Err(e),
        }
    }

    /// Borrows the master key.
    pub fn master(&self) -> (key: &AegisKey)
        ensures
            key@ == self@.master,
            key@.len() == MASTER_LEN,
    {
        proof {
            use_type_invariant(self);
        }
        &self.master
    }

    /// Borrows a domain key.
    pub fn domain(&self, d: Domain) -> (key: &AegisKey)
        ensures
            key@ == domain_key(self@.master, d),
            key@ == hkdf_sha256_okm(self@.master, MASTER_SALT@, d.label())@,
            key@.len() == 32,
    {
        proof {
            use_type_invariant(self);
        }
        self.hierarchy.domain(d)
    }

    /// Borrows the key hierarchy.
    pub fn hierarchy(&self) -> (hierarchy: &KeyHierarchy)
        ensures
            hierarchy.derived_from(self@.master),
    {
        proof {
            use_type_invariant(self);
        }
        &self.hierarchy
    }

    /// Encrypts `plaintext` with a domain key, authenticated with `aad`.
    /// Returns the nonce and the ciphertext, for [`AegisVault::decrypt`].
    pub fn encrypt(&self, domain: Domain, plaintext: &[u8], aad: &[u8], algo: AeadAlgo) -> (result:
        Result<(Vec<u8>, Vec<u8>)>)
        requires
            can_seal(algo, plaintext@.len()),
        ensures
            result is Ok <==> seals(algo, plaintext@.len(), aad@.len()),
            result matches Err(e) ==> e is AeadSeal,
            result matches Ok((nonce, ct)) ==> {
                let key = domain_key(self@.master, domain);
                &&& nonce@.len() == nonce_len(algo)
                &&& is_drawn(nonce@)
                &&& ct@ == sealed(algo, key, nonce@, plaintext@, aad@)
                &&& ct@.len() == plaintext@.len() + 16
                &&& opened(algo, key, nonce@, ct@, aad@) == Some(plaintext@)
            },
            result matches Ok((nonce, ct)) ==> {
                let key = hkdf_sha256_okm(self@.master, MASTER_SALT@, domain.label())@;
                match algo {
                    AeadAlgo::Aes256Gcm => ct@ == aes256gcm_ciphertext(
                        key,
                        nonce@,
                        plaintext@,
                        aad@,
                    ),
                    AeadAlgo::XChaCha20Poly1305 => ct@ == xchacha20poly1305_ciphertext(
                        key,
                        nonce@,
                        plaintext@,
                        aad@,
                    ),
                }
            },
    {
        AeadCipher::with_key(algo, self.domain(domain).expose()).seal(plaintext, aad)
    }

    /// Decrypts what [`AegisVault::encrypt`] returned.
    pub fn decrypt(
        &self,
        domain: Domain,
        nonce: &[u8],
        ciphertext: &[u8],
        aad: &[u8],
        algo: AeadAlgo,
    ) -> (result: Result<Vec<u8>>)
        ensures
            ({
                let plaintext = opened(
                    algo,
                    domain_key(self@.master, domain),
                    nonce@,
                    ciphertext@,
                    aad@,
                );
                match result {
                    Ok(pt) => plaintext == Some(pt@),
                    Err(e) => e is AeadOpen && plaintext is None,
                }
            }),
            result matches Ok(pt) ==> ciphertext@.len() == pt@.len() + 16,
            result matches Ok(pt) ==> seals(algo, pt@.len(), aad@.len()) ==> ciphertext@ == sealed(
                algo,
                domain_key(self@.master, domain),
                nonce@,
                pt@,
                aad@,
            ),
            result matches Ok(pt) ==> {
                let key = hkdf_sha256_okm(self@.master, MASTER_SALT@, domain.label())@;
                match algo {
                    AeadAlgo::Aes256Gcm => nonce@.len() == 12 && aes256gcm_plaintext(
                        key,
                        nonce@,
                        ciphertext@,
                        aad@,
                    ) == Some(pt@),
                    AeadAlgo::XChaCha20Poly1305 => nonce@.len() == 24
                        && xchacha20poly1305_plaintext(key, nonce@, ciphertext@, aad@) == Some(pt@),
                }
            },
    {
        AeadCipher::with_key(algo, self.domain(domain).expose()).open(nonce, ciphertext, aad)
    }

    /// Seals the master key into a new slot table with one slot, so that the
    /// vault can be persisted and reopened. An earlier table is replaced.
    pub fn seal_slots(&mut self, passphrase: &[u8]) -> (result: Result<()>)
        ensures
            valid_vault(final(self)@),
            final(self)@.master == old(self)@.master,
            match result {
                Ok(()) => {
                    &&& passphrase@.len() <= 0xffff_ffff
                    &&& final(self)@.slots matches Some(t) && initial_table(
                        t,
                        old(self)@.master,
                        passphrase@,
                    ) && is_drawn(t.header_salt) && slot_is_drawn(t.slots[0])
                },
                Err(e) => {
                    &&& e is Argon2
                    &&& passphrase@.len() > 0xffff_ffff
                    &&& final(self)@ == old(self)@
                },
            },
    {
        proof {
            use_type_invariant(&*self);
        }
        let mut raw: [u8; MASTER_LEN] = array_from(self.master.expose());
        let outcome = KeySlotTable::new_initial(&raw, passphrase);
        zeroize_bytes(&mut raw);
        match outcome {
            Ok(table) => {
                proof {
                    crate::slots::laws::law_first_user_gets_in(
                        table@,
                        self.master@,
                        passphrase@,
                    );
                }
                self.slots = Some(table);
                Ok(())
            },
            Err(e) => Err(e),
        }
    }

    /// Adds a key slot for another user. Without a slot table, one is made
    /// with this slot. Returns the index of the slot.
    pub fn add_slot(&mut self, passphrase: &[u8]) -> (result: Result<usize>)
        ensures
            valid_vault(final(self)@),
            final(self)@.master == old(self)@.master,
            match result {
                Ok(i) => {
                    &&& passphrase@.len() <= 0xffff_ffff
                    &&& final(self)@.slots matches Some(t) && match old(self)@.slots {
                        Some(before) => {
                            &&& before.slots.len() < MAX_SLOTS
                            &&& i == before.slots.len()
                            &&& extended_table(t, before, old(self)@.master, passphrase@)
                            &&& slot_is_drawn(t.slots.last())
                        },
                        None => i == 0 && initial_table(t, old(self)@.master, passphrase@)
                            && is_drawn(t.header_salt) && slot_is_drawn(t.slots[0]),
                    }
                },
                Err(e) => {
                    &&& final(self)@ == old(self)@
                    &&& if old(self)@.slots matches Some(before) && before.slots.len()
                        >= MAX_SLOTS {
                        e == AegisError::SlotTableFull(MAX_SLOTS)
                    } else {
                        e is Argon2 && passphrase@.len() > 0xffff_ffff
                    }
                },
            },
    {
        proof {
            use_type_invariant(&*self);
        }
        let mut slots: Option<KeySlotTable> = None;
        std::mem::swap(&mut slots, &mut self.slots);
        match slots {
            Some(mut table) => {
                let ghost before = table@;
                let mut raw: [u8; MASTER_LEN] = array_from(self.master.expose());
                let result = table.add_slot(&raw, passphrase);
                zeroize_bytes(&mut raw);
                proof {
                    if result is Ok {
                        crate::slots::laws::law_added_user_gets_in(
                            table@,
                            before,
                            self.master@,
                            passphrase@,
                        );
                    }
                }
                self.slots = Some(table);
                result
            },
            None => match self.seal_slots(passphrase) {
                Ok(()) => Ok(0),
                Err(e) => Err(e),
            },
        }
    }

    /// Revokes a key slot. The last enabled slot is not revoked.
    pub fn revoke_slot(&mut self, idx: usize) -> (result: Result<()>)
        ensures
            valid_vault(final(self)@),
            final(self)@.master == old(self)@.master,
            match result {
                Ok(()) => {
                    &&& old(self)@.slots matches Some(before) && idx < before.slots.len() && if slot_enabled(
                        before.slots[idx as int],
                    ) {
                        &&& enabled_slots(before.slots) > 1
                        &&& final(self)@.slots == Some(
                            TableModel {
                                slots: before.slots.update(
                                    idx as int,
                                    revoked_slot(before.slots[idx as int]),
                                ),
                                ..before
                            },
                        )
                    } else {
                        final(self)@ == old(self)@
                    }
                },
                Err(e) => {
                    &&& final(self)@ == old(self)@
                    &&& match old(self)@.slots {
                        Some(before) => if idx >= before.slots.len() {
                            e is SlotUnseal
                        } else {
                            &&& e is LastSlotRevocation
                            &&& slot_enabled(before.slots[idx as int])
                            &&& enabled_slots(before.slots) == 1
                        },
                        None => e is LastSlotRevocation,
                    }
                },
            },
    {
        proof {
            use_type_invariant(&*self);
        }
        let mut slots: Option<KeySlotTable> = None;
        std::mem::swap(&mut slots, &mut self.slots);
        match slots {
            Some(mut table) => {
                let ghost before = table@;
                let result = table.revoke_slot(idx);
                proof {
                    if result is Ok && slot_enabled(before.slots[idx as int]) {
                        crate::slots::laws::law_revocation_leaves_an_enabled_slot(
                            before.slots,
                            idx as int,
                        );
                    }
                }
                self.slots = Some(table);
                result
            },
            None => Err(AegisError::LastSlotRevocation),
        }
    }

    /// Recovers the master key from a persisted slot table with a passphrase,
    /// and rebuilds the vault in place.
    ///
    /// The recovered master key must match the verifier of the table: a
    /// master key of another volume is refused. Where anything fails the
    /// vault stays as it was.
    pub fn open_from_slots(
        &mut self,
        table_bytes: &[u8],
        header_salt: &[u8; 32],
        passphrase: &[u8],
    ) -> (result: Result<()>)
        ensures
            valid_vault(final(self)@),
            match result {
                Ok(()) => reopened(table_bytes@, header_salt@, passphrase@) == Ok::<
                    VaultModel,
                    AegisError,
                >(final(self)@),
                Err(e) => {
                    &&& reopened(table_bytes@, header_salt@, passphrase@) == Err::<
                        VaultModel,
                        AegisError,
                    >(e)
                    &&& final(self)@ == old(self)@
                },
            },
    {
        proof {
            use_type_invariant(&*self);
        }
        let table = match KeySlotTable::from_bytes(table_bytes, header_salt) {
            Ok(table) => table,
            Err(e) => {
                return Err(e);
            },
        };
        let (idx, master) = match table.unseal_with(passphrase) {
            Ok(found) => found,
            Err(e) => {
                return Err(e);
            },
        };
        let mut raw: [u8; MASTER_LEN] = array_from(master.expose());
        let computed: [u8; 32] = volume_verifier(&raw);
        zeroize_bytes(&mut raw);
        if let Err(e) = check_volume(&computed, &table.verifier) {
            return Err(e);
        }
        let hierarchy = match KeyHierarchy::from_master(master.expose()) {
            Ok(hierarchy) => hierarchy,
            Err(e) => {
                return Err(e);
            },
        };
        proof {
            crate::slots::laws::law_access_needs_an_enabled_slot(
                table@.slots,
                passphrase@,
                idx as int,
            );
        }
        *self = AegisVault { master, hierarchy, slots: Some(table) };
        Ok(())
    }

    /// Whether the live master key matches the verifier of the slot table.
    /// Without a slot table there is nothing to match.
    ///
    /// As a vault only ever takes a table whose verifier matches, the answer
    /// is yes exactly if there is a table.
    pub fn verify_volume(&self) -> (verified: bool)
        ensures
            verified == (self@.slots matches Some(t) && t.verifier == volume_check(self@.master)),
            verified == (self@.slots is Some),
    {
        proof {
            use_type_invariant(self);
        }
        match &self.slots {
            Some(table) => {
                let mut raw: [u8; MASTER_LEN] = array_from(self.master.expose());
                let computed: [u8; 32] = volume_verifier(&raw);
                zeroize_bytes(&mut raw);
                match check_volume(&computed, &table.verifier) {
                    Ok(()) => true,
                    Err(_) => false,
                }
            },
            None => false,
        }
    }

    /// Encodes the slot table, if there is one. With its header salt it is
    /// read back as the same table.
    pub fn slots_to_bytes(&self) -> (bytes: Option<Vec<u8>>)
        ensures
            match self@.slots {
                Some(t) => {
                    &&& bytes matches Some(b) && b@ == table_bytes(t)
                    &&& parsed_table(table_bytes(t), t.header_salt) == Ok::<
                        TableModel,
                        AegisError,
                    >(t)
                },
                None => bytes is None,
            },
    {
        proof {
            use_type_invariant(self);
        }
        match &self.slots {
            Some(table) => {
                proof {
                    crate::slots::encoding::law_table_round_trip(table@);
                }
                Some(table.to_bytes())
            },
            None => None,
        }
    }

    /// The header salt of the slot table, if there is one.
    pub fn slots_header_salt(&self) -> (salt: Option<[u8; 32]>)
        ensures
            match self@.slots {
                Some(t) => salt matches Some(s) && s@ == t.header_salt,
                None => salt is None,
            },
    {
        match &self.slots {
            Some(table) => Some(table.header_salt),
            None => None,
        }
    }

    /// Replaces the master key by a fresh random one, and derives the
    /// hierarchy anew. The slot table is dropped, for it wraps the old key.
    /// Returns the evidence of the draw that gave the new key.
    pub fn rotate_master(&mut self) -> (draw: Draw)
        ensures
            final(self)@ == (VaultModel { master: draw.bytes(), slots: None }),
            valid_vault(final(self)@),
    {
        let (key, draw) = VolumeKeyRotation::draw();
        self.rekey(key);
        draw
    }

    /// Replaces the master key by a given one, and derives the hierarchy anew.
    /// The slot table is dropped, for it wraps the old key.
    pub fn rekey(&mut self, master: AegisKey)
        requires
            master@.len() == MASTER_LEN,
        ensures
            final(self)@ == (VaultModel { master: master@, slots: None }),
            valid_vault(final(self)@),
    {
        *self = Self::from_key(master);
    }

    /// Gives up the vault for its keys: the master key, then the domain keys in
    /// the order of [`Domain`].
    pub fn into_keys(self) -> (keys: Vec<AegisKey>)
        ensures
            keys@.len() == 7,
            keys@[0]@ == self@.master,
            keys@[1]@ == domain_key(self@.master, Domain::Enc),
            keys@[2]@ == domain_key(self@.master, Domain::Auth),
            keys@[3]@ == domain_key(self@.master, Domain::Meta),
            keys@[4]@ == domain_key(self@.master, Domain::Shard),
            keys@[5]@ == domain_key(self@.master, Domain::Xts),
            keys@[6]@ == domain_key(self@.master, Domain::Handle),
    {
        proof {
            use_type_invariant(&self);
        }
        let mut keys: Vec<AegisKey> = Vec::new();
        keys.push(self.master);
        let mut domain_keys = self.hierarchy.into_keys();
        keys.append(&mut domain_keys);
        keys
    }
}

} // verus!

//! Key slots: multi-user access to a master key, and its revocation.
//!
//! A key slot is a copy of the master key, sealed with AES-256-GCM under a key
//! that Argon2id derives from a passphrase. A slot table holds the slots of one
//! volume. Its encoding ends in a keyed BLAKE3 hash, so that a change to the
//! slot metadata (a lowered cost, say) is noticed.
//!
//! ```text
//! magic       4 bytes   "SOTK"
//! version     1 byte    1
//! slot count  1 byte
//! for each slot, 110 bytes:
//!   slot id   16 bytes
//!   kdf id    1 byte    1 = Argon2id
//!   m cost    4 bytes, little-endian
//!   t cost    4 bytes, little-endian
//!   salt      16 bytes
//!   nonce     12 bytes
//!   ct        48 bytes  sealed master key and its tag
//!   flags     1 byte    bit 0 = enabled
//!   created   8 bytes, little-endian
//! verifier    32 bytes  keyed hash of the master key
//! mac         32 bytes  keyed hash of everything above
//! ```
//!
//! The key of the mac, the header salt, is stored next to the table.

pub mod encoding;
pub mod laws;

use crate::aead::{opened, sealed, AeadAlgo, AeadCipher};
use crate::aegis_key::{zeros, AegisKey};
use crate::bytes::{append, array_from, same};
use crate::error::{AegisError, Result};
use crate::kdf::{argon2id_root, passphrase_key, ARGON2_LANES, MASTER_LEN};
use crate::primitives::{
    aes256gcm_ciphertext, aes256gcm_plaintext, argon2id_accepts, argon2id_tag, blake3_keyed, blake3_keyed_hash, ct_eq_slice, is_drawn, random_bytes,
    since_unix_epoch, zeroize_bytes, Draw,
};
use crate::debug::{show, DebugField, DebugValue};
use encoding::{
    parsed_slots, parsed_table, parsed_with_mac, read_slot, slice_at, slot_from_bytes, slots_bytes,
    table_body, table_bytes, write_slot,
};
use vstd::prelude::*;

verus! {

/// Magic bytes of a slot table: `SOTK`.
pub const HEADER_MAGIC: &'static [u8; 4] = &[0x53, 0x4f, 0x54, 0x4b];

/// Format version of a slot table.
pub const HEADER_VERSION: u8 = 1;

/// KDF identifier of Argon2id.
pub const KDF_ID_ARGON2ID: u8 = 1;

/// Largest number of slots that a table grows to.
pub const MAX_SLOTS: usize = 16;

/// Nonce length of the slot cipher.
pub const NONCE_LEN: usize = 12;

/// Tag length of the slot cipher.
pub const TAG_LEN: usize = 16;

/// Length of a sealed master key with its tag.
pub const CT_LEN: usize = MASTER_LEN + TAG_LEN;

/// Length of an encoded slot.
pub const SLOT_LEN: usize = 110;

/// Length of the mac that ends a table.
pub const MAC_LEN: usize = 32;

/// Argon2id memory cost of the slots that a table makes, in KiB.
pub const SLOT_M_COST: u32 = 64;

/// Argon2id time cost of the slots that a table makes.
pub const SLOT_T_COST: u32 = 3;

/// Key of the volume verifier: `soteria-aegis-volume-verifier-v1`.
pub const VERIFIER_KEY: &'static [u8; 32] = &[
    0x73, 0x6f, 0x74, 0x65, 0x72, 0x69, 0x61, 0x2d, 0x61, 0x65, 0x67, 0x69, 0x73, 0x2d, 0x76, 0x6f,
    0x6c, 0x75, 0x6d, 0x65, 0x2d, 0x76, 0x65, 0x72, 0x69, 0x66, 0x69, 0x65, 0x72, 0x2d, 0x76, 0x31,
];

/// What a key slot holds.
#[verifier::ext_equal]
pub struct SlotModel {
    pub slot_id: Seq<u8>,
    pub kdf_id: u8,
    pub m_cost: u32,
    pub t_cost: u32,
    pub salt: Seq<u8>,
    pub nonce: Seq<u8>,
    pub ct: Seq<u8>,
    pub flags: u8,
    pub created_at: u64,
}

/// One sealed copy of the master key.
#[derive(Clone)]
pub struct KeySlot {
    pub slot_id: [u8; 16],
    pub kdf_id: u8,
    pub m_cost: u32,
    pub t_cost: u32,
    pub salt: [u8; 16],
    pub nonce: [u8; NONCE_LEN],
    pub ct: [u8; CT_LEN],
    pub flags: u8,
    pub created_at: u64,
}

impl View for KeySlot {
    type V = SlotModel;

    open spec fn view(&self) -> SlotModel {
        SlotModel {
            slot_id: self.slot_id@,
            kdf_id: self.kdf_id,
            m_cost: self.m_cost,
            t_cost: self.t_cost,
            salt: self.salt@,
            nonce: self.nonce@,
            ct: self.ct@,
            flags: self.flags,
            created_at: self.created_at,
        }
    }
}

/// Whether the byte strings of a slot have their fixed lengths. Every
/// [`KeySlot`] is of this shape.
pub open spec fn slot_shape(s: SlotModel) -> bool {
    &&& s.slot_id.len() == 16
    &&& s.salt.len() == 16
    &&& s.nonce.len() == NONCE_LEN
    &&& s.ct.len() == CT_LEN
}

/// Whether a slot is enabled.
pub open spec fn slot_enabled(s: SlotModel) -> bool {
    s.flags % 2 == 1
}

/// The master key that a passphrase recovers from a slot, if any.
pub open spec fn slot_master(s: SlotModel, passphrase: Seq<u8>) -> Option<Seq<u8>> {
    match passphrase_key(passphrase, s.salt, s.m_cost, s.t_cost) {
        Some(key) => recovered_master(
            opened(AeadAlgo::Aes256Gcm, key, s.nonce, s.ct, HEADER_MAGIC@),
        ),
        None => None,
    }
}

/// What was opened, if it has the length of a master key.
pub open spec fn recovered_master(plaintext: Option<Seq<u8>>) -> Option<Seq<u8>> {
    match plaintext {
        Some(m) => if m.len() == MASTER_LEN {
            Some(m)
        } else {
            None
        },
        None => None,
    }
}

/// Whether the salt, the nonce and the identifier of a slot were drawn.
pub open spec fn slot_is_drawn(s: SlotModel) -> bool {
    &&& is_drawn(s.salt)
    &&& is_drawn(s.nonce)
    &&& is_drawn(s.slot_id)
}

/// Whether a slot is a new, enabled slot that wraps `master` under a
/// passphrase with the given costs.
pub open spec fn slot_wraps(
    s: SlotModel,
    master: Seq<u8>,
    passphrase: Seq<u8>,
    m_cost: u32,
    t_cost: u32,
) -> bool {
    &&& slot_shape(s)
    &&& s.kdf_id == KDF_ID_ARGON2ID
    &&& s.m_cost == m_cost
    &&& s.t_cost == t_cost
    &&& s.flags == 1
    &&& passphrase_key(passphrase, s.salt, m_cost, t_cost) matches Some(key) && s.ct == sealed(
        AeadAlgo::Aes256Gcm,
        key,
        s.nonce,
        master,
        HEADER_MAGIC@,
    )
    &&& slot_master(s, passphrase) == Some(master)
}

/// What a slot table holds.
#[verifier::ext_equal]
pub struct TableModel {
    pub header_salt: Seq<u8>,
    pub slots: Seq<SlotModel>,
    pub verifier: Seq<u8>,
}

/// The key slots of one master key.
///
/// `header_salt` is the key of the table's mac; it is stored next to the
/// table. `verifier` is the check value of the master key, see
/// [`volume_verifier`].
#[derive(Clone)]
pub struct KeySlotTable {
    pub header_salt: [u8; 32],
    pub slots: Vec<KeySlot>,
    pub verifier: [u8; 32],
}

impl View for KeySlotTable {
    type V = TableModel;

    open spec fn view(&self) -> TableModel {
        TableModel {
            header_salt: self.header_salt@,
            slots: Seq::new(self.slots@.len(), |i: int| self.slots@[i]@),
            verifier: self.verifier@,
        }
    }
}

/// Whether the byte strings of a table have their fixed lengths. Every
/// [`KeySlotTable`] is of this shape.
pub open spec fn table_shape(t: TableModel) -> bool {
    &&& t.header_salt.len() == 32
    &&& t.verifier.len() == 32
    &&& forall|i: int| 0 <= i < t.slots.len() ==> slot_shape(#[trigger] t.slots[i])
}

impl KeySlot {
    /// Makes a slot that wraps `master` under `passphrase`, with a random salt,
    /// nonce and identifier, stamped with the current time.
    pub fn create(
        master: &[u8; MASTER_LEN],
        passphrase: &[u8],
        m_cost: u32,
        t_cost: u32,
    ) -> (result: Result<Self>)
        ensures
            result is Ok <==> argon2id_accepts(
                passphrase@.len(),
                16,
                m_cost,
                t_cost,
                ARGON2_LANES,
            ),
            result matches Err(e) ==> e is Argon2,
            result matches Ok(slot) ==> slot_wraps(
                slot@,
                master@,
                passphrase@,
                m_cost,
                t_cost,
            ) && slot_is_drawn(slot@),
            result matches Ok(slot) ==> slot.ct@ == aes256gcm_ciphertext(
                argon2id_tag(passphrase@, slot.salt@, m_cost, t_cost, 1)@,
                slot.nonce@,
                master@,
                HEADER_MAGIC@,
            ),
    {
        let (salt, _draw): ([u8; 16], Draw) = random_bytes();
        assert(is_drawn(salt@));
        let (nonce, _draw): ([u8; NONCE_LEN], Draw) = random_bytes();
        assert(is_drawn(nonce@));
        let (slot_id, _draw): ([u8; 16], Draw) = random_bytes();
        assert(is_drawn(slot_id@));
        Self::create_with(master, passphrase, m_cost, t_cost, salt, nonce, slot_id, now_secs())
    }

    /// Makes a slot that wraps `master` under `passphrase`, with a given salt,
    /// nonce, identifier and time stamp.
    pub fn create_with(
        master: &[u8; MASTER_LEN],
        passphrase: &[u8],
        m_cost: u32,
        t_cost: u32,
        salt: [u8; 16],
        nonce: [u8; NONCE_LEN],
        slot_id: [u8; 16],
        created_at: u64,
    ) -> (result: Result<Self>)
        ensures
            result is Ok <==> argon2id_accepts(
                passphrase@.len(),
                16,
                m_cost,
                t_cost,
                ARGON2_LANES,
            ),
            result matches Err(e) ==> e is Argon2,
            result matches Ok(slot) ==> {
                &&& slot_wraps(slot@, master@, passphrase@, m_cost, t_cost)
                &&& slot.salt == salt
                &&& slot.nonce == nonce
                &&& slot.slot_id == slot_id
                &&& slot.created_at == created_at
            },
    {
        let slot_key = match argon2id_root(passphrase, &salt, m_cost, t_cost) {
            Ok(key) => key,
            Err(e) => {
                return Err(e);
            },
        };
        let cipher = AeadCipher::with_key(AeadAlgo::Aes256Gcm, slot_key.expose());
        match cipher.seal_with_nonce(&nonce, master, HEADER_MAGIC) {
            Ok(ct) => Ok(
                Self::assemble(slot_id, m_cost, t_cost, salt, nonce, array_from(&ct), created_at),
            ),
            Err(e) => Err(e),
        }
    }

    /// An enabled slot around a sealed master key.
    pub fn assemble(
        slot_id: [u8; 16],
        m_cost: u32,
        t_cost: u32,
        salt: [u8; 16],
        nonce: [u8; NONCE_LEN],
        ct: [u8; CT_LEN],
        created_at: u64,
    ) -> (slot: Self)
        ensures
            slot == (KeySlot {
                slot_id,
                kdf_id: KDF_ID_ARGON2ID,
                m_cost,
                t_cost,
                salt,
                nonce,
                ct,
                flags: 1,
                created_at,
            }),
    {
        KeySlot {
            slot_id,
            kdf_id: KDF_ID_ARGON2ID,
            m_cost,
            t_cost,
            salt,
            nonce,
            ct,
            flags: 0b0000_0001,
            created_at,
        }
    }

    /// Recovers the master key with a passphrase. A slot only opens to the key
    /// that it wraps.
    pub fn unseal(&self, passphrase: &[u8]) -> (result: Result<AegisKey>)
        ensures
            match result {
                Ok(key) => slot_master(self@, passphrase@) == Some(key@),
                Err(e) => {
                    &&& slot_master(self@, passphrase@) is None
                    &&& if passphrase_key(
                        passphrase@,
                        self.salt@,
                        self.m_cost,
                        self.t_cost,
                    ) is None {
                        e is Argon2
                    } else {
                        e is SlotUnseal
                    }
                },
            },
            result matches Ok(key) ==> {
                &&& key@.len() == MASTER_LEN
                &&& passphrase_key(passphrase@, self.salt@, self.m_cost, self.t_cost) matches Some(
                    slot_key,
                ) && self.ct@ == sealed(
                    AeadAlgo::Aes256Gcm,
                    slot_key,
                    self.nonce@,
                    key@,
                    HEADER_MAGIC@,
                )
            },
            ({
                let plaintext = aes256gcm_plaintext(
                    argon2id_tag(passphrase@, self.salt@, self.m_cost, self.t_cost, 1)@,
                    self.nonce@,
                    self.ct@,
                    HEADER_MAGIC@,
                );
                match result {
                    Ok(key) => plaintext == Some(key@),
                    Err(e) => e is SlotUnseal ==> (plaintext matches Some(m) ==> m.len() != 32),
                }
            }),
    {
        let slot_key = match argon2id_root(passphrase, &self.salt, self.m_cost, self.t_cost) {
            Ok(key) => key,
            Err(e) => {
                return Err(e);
            },
        };
        let cipher = AeadCipher::with_key(AeadAlgo::Aes256Gcm, slot_key.expose());
        Self::recovered(cipher.open(&self.nonce, &self.ct, HEADER_MAGIC))
    }

    /// The master key in an opened slot: it must have opened, to the length of
    /// a master key.
    pub fn recovered(plaintext: Result<Vec<u8>>) -> (result: Result<AegisKey>)
        ensures
            match result {
                Ok(key) => plaintext matches Ok(m) && m@.len() == MASTER_LEN && key@ == m@,
                Err(e) => e is SlotUnseal && (plaintext matches Ok(m) ==> m@.len() != MASTER_LEN),
            },
    {
        match plaintext {
            Ok(mut master) => {
                let result = if master.len() == MASTER_LEN {
                    Ok(AegisKey::new(&master))
                } else {
                    Err(AegisError::SlotUnseal)
                };
                zeroize_bytes(master.as_mut_slice());
                result
            },
            Err(_) => Err(AegisError::SlotUnseal),
        }
    }

    /// Whether this slot is enabled.
    pub fn is_enabled(&self) -> (enabled: bool)
        ensures
            enabled == slot_enabled(self@),
    {
        let flags: u8 = self.flags;
        assert((flags & 1 != 0) == (flags % 2 == 1)) by (bit_vector);
        flags & 0b0000_0001 != 0
    }
}

impl KeySlot {
    /// What `Debug` shows of this slot: its costs and whether it is enabled,
    /// but no identifier, salt, nonce or sealed key.
    pub fn debug_fields(&self) -> (fields: Vec<DebugField>)
        ensures
            fields@ == seq![
                DebugField { name: "slot_id", value: DebugValue::Redacted },
                DebugField { name: "kdf_id", value: DebugValue::Number(self.kdf_id as u64) },
                DebugField { name: "m_cost", value: DebugValue::Number(self.m_cost as u64) },
                DebugField { name: "t_cost", value: DebugValue::Number(self.t_cost as u64) },
                DebugField { name: "enabled", value: DebugValue::Truth(slot_enabled(self@)) },
            ],
    {
        let mut fields: Vec<DebugField> = Vec::new();
        fields.push(DebugField { name: "slot_id", value: DebugValue::Redacted });
        fields.push(DebugField { name: "kdf_id", value: DebugValue::Number(self.kdf_id as u64) });
        fields.push(DebugField { name: "m_cost", value: DebugValue::Number(self.m_cost as u64) });
        fields.push(DebugField { name: "t_cost", value: DebugValue::Number(self.t_cost as u64) });
        fields.push(DebugField { name: "enabled", value: DebugValue::Truth(self.is_enabled()) });
        fields
    }
}

impl core::fmt::Debug for KeySlot {
    /// Shows [`KeySlot::debug_fields`].
    fn fmt(&self, f: &mut core::fmt::Formatter<'_>) -> core::fmt::Result {
        show(f, "KeySlot", &self.debug_fields())
    }
}

/// The check value of a master key.
pub open spec fn volume_check(master: Seq<u8>) -> Seq<u8> {
    blake3_keyed_hash(VERIFIER_KEY@, master)@
}

/// The check value of a master key: its keyed BLAKE3 hash under a fixed key.
///
/// It is public. With it a reopened vault detects that the master key that a
/// slot gave is the expected one.
pub fn volume_verifier(master: &[u8; MASTER_LEN]) -> (verifier: [u8; 32])
    ensures
        verifier@ == volume_check(master@),
        verifier == blake3_keyed_hash(VERIFIER_KEY@, master@),
{
    blake3_keyed(VERIFIER_KEY, master)
}

/// Whether a computed check value is the stored one. A difference means that
/// the master key belongs to another volume.
pub fn check_volume(computed: &[u8; 32], stored: &[u8; 32]) -> (result: Result<()>)
    ensures
        match result {
            Ok(()) => computed@ == stored@,
            Err(e) => e is VolumeMismatch && computed@ != stored@,
        },
{
    if ct_eq_slice(computed, stored) {
        Ok(())
    } else {
        Err(AegisError::VolumeMismatch)
    }
}

/// The number of enabled slots.
pub open spec fn enabled_slots(slots: Seq<SlotModel>) -> nat {
    slots.filter(|s: SlotModel| slot_enabled(s)).len()
}

/// A slot after its revocation: disabled, its sealed master key wiped.
pub open spec fn revoked_slot(s: SlotModel) -> SlotModel {
    SlotModel { flags: (s.flags - s.flags % 2) as u8, ct: zeros(CT_LEN as nat), ..s }
}

/// Whether a slot is enabled and opens with a passphrase.
pub open spec fn slot_opens(s: SlotModel, passphrase: Seq<u8>) -> bool {
    slot_enabled(s) && slot_master(s, passphrase) is Some
}

/// Whether slot `i` is the first one that opens with a passphrase.
pub open spec fn first_opening(slots: Seq<SlotModel>, passphrase: Seq<u8>, i: int) -> bool {
    &&& 0 <= i < slots.len()
    &&& slot_opens(slots[i], passphrase)
    &&& forall|j: int| 0 <= j < i ==> !slot_opens(#[trigger] slots[j], passphrase)
}

/// Whether no slot opens with a passphrase.
pub open spec fn none_opens(slots: Seq<SlotModel>, passphrase: Seq<u8>) -> bool {
    forall|j: int| 0 <= j < slots.len() ==> !slot_opens(#[trigger] slots[j], passphrase)
}

/// The master key that a passphrase recovers from a table: that in the first
/// slot that opens.
pub open spec fn table_master(slots: Seq<SlotModel>, passphrase: Seq<u8>) -> Option<Seq<u8>> {
    if none_opens(slots, passphrase) {
        None
    } else {
        slot_master(slots[choose|i: int| first_opening(slots, passphrase, i)], passphrase)
    }
}

/// Whether a table is new, with one slot that wraps `master`.
pub open spec fn initial_table(t: TableModel, master: Seq<u8>, passphrase: Seq<u8>) -> bool {
    &&& t.verifier == volume_check(master)
    &&& t.slots.len() == 1
    &&& slot_wraps(t.slots[0], master, passphrase, SLOT_M_COST, SLOT_T_COST)
}

/// Whether a table has one more slot, which wraps `master`, than `before`.
pub open spec fn extended_table(
    t: TableModel,
    before: TableModel,
    master: Seq<u8>,
    passphrase: Seq<u8>,
) -> bool {
    &&& t.header_salt == before.header_salt
    &&& t.verifier == before.verifier
    &&& t.slots.len() == before.slots.len() + 1
    &&& t.slots.drop_last() == before.slots
    &&& slot_wraps(t.slots.last(), master, passphrase, SLOT_M_COST, SLOT_T_COST)
}

impl KeySlotTable {
    /// A table around one slot for `master`, with a given header salt.
    pub fn with_slot(header_salt: [u8; 32], slot: KeySlot, master: &[u8; MASTER_LEN]) -> (table:
        Self)
        ensures
            table.header_salt == header_salt,
            table.slots@ == seq![slot],
            table.verifier@ == volume_check(master@),
    {
        let mut slots: Vec<KeySlot> = Vec::new();
        slots.push(slot);
        KeySlotTable { header_salt, slots, verifier: volume_verifier(master) }
    }

    /// Makes a table with one slot for `master`, and a random header salt.
    pub fn new_initial(master: &[u8; MASTER_LEN], passphrase: &[u8]) -> (result: Result<Self>)
        ensures
            result is Ok <==> passphrase@.len() <= 0xffff_ffff,
            result matches Err(e) ==> e is Argon2,
            result matches Ok(table) ==> {
                &&& initial_table(table@, master@, passphrase@)
                &&& is_drawn(table.header_salt@)
                &&& slot_is_drawn(table@.slots[0])
            },
    {
        let (header_salt, _draw): ([u8; 32], Draw) = random_bytes();
        assert(is_drawn(header_salt@));
        match KeySlot::create(master, passphrase, SLOT_M_COST, SLOT_T_COST) {
            Ok(slot) => Ok(Self::with_slot(header_salt, slot, master)),
            Err(e) => Err(e),
        }
    }

    /// Appends a slot that wraps the same master key under another passphrase,
    /// for another user. Returns the index of the new slot.
    pub fn add_slot(&mut self, master: &[u8; MASTER_LEN], passphrase: &[u8]) -> (result: Result<
        usize,
    >)
        ensures
            match result {
                Ok(i) => {
                    &&& old(self)@.slots.len() < MAX_SLOTS
                    &&& passphrase@.len() <= 0xffff_ffff
                    &&& i == old(self)@.slots.len()
                    &&& extended_table(final(self)@, old(self)@, master@, passphrase@)
                    &&& slot_is_drawn(final(self)@.slots.last())
                },
                Err(e) => {
                    &&& final(self)@ == old(self)@
                    &&& if old(self)@.slots.len() >= MAX_SLOTS {
                        e == AegisError::SlotTableFull(MAX_SLOTS)
                    } else {
                        e is Argon2 && passphrase@.len() > 0xffff_ffff
                    }
                },
            },
    {
        if self.slots.len() >= MAX_SLOTS {
            return Err(AegisError::SlotTableFull(MAX_SLOTS));
        }
        match KeySlot::create(master, passphrase, SLOT_M_COST, SLOT_T_COST) {
            Ok(slot) => {
                self.slots.push(slot);
                assert(self@.slots.drop_last() =~= old(self)@.slots);
                Ok(self.slots.len() - 1)
            },
            Err(e) => Err(e),
        }
    }

    /// The number of enabled slots.
    pub fn enabled_count(&self) -> (count: usize)
        ensures
            count == enabled_slots(self@.slots),
    {
        let mut count: usize = 0;
        let mut i: usize = 0;
        let ghost slots = self@.slots;
        let ghost enabled = |s: SlotModel| slot_enabled(s);
        reveal(Seq::filter);
        while i < self.slots.len()
            invariant
                slots == self@.slots,
                enabled == (|s: SlotModel| slot_enabled(s)),
                i <= slots.len() == self.slots@.len(),
                count == slots.take(i as int).filter(enabled).len(),
                count <= i,
            decreases slots.len() - i,
        {
            reveal(Seq::filter);
            assert(slots.take(i + 1).drop_last() =~= slots.take(i as int));
            if self.slots[i].is_enabled() {
                count = count + 1;
            }
            i = i + 1;
        }
        assert(slots.take(i as int) =~= slots);
        count
    }

    /// Revokes the slot at `idx`: disables it and wipes its sealed master key,
    /// so that it never opens again. The last enabled slot is not revoked. A
    /// slot that is disabled already stays as it is.
    pub fn revoke_slot(&mut self, idx: usize) -> (result: Result<()>)
        ensures
            match result {
                Ok(()) => {
                    &&& idx < old(self)@.slots.len()
                    &&& if slot_enabled(old(self)@.slots[idx as int]) {
                        &&& enabled_slots(old(self)@.slots) > 1
                        &&& final(self)@ == (TableModel {
                            slots: old(self)@.slots.update(
                                idx as int,
                                revoked_slot(old(self)@.slots[idx as int]),
                            ),
                            ..old(self)@
                        })
                    } else {
                        final(self)@ == old(self)@
                    }
                },
                Err(e) => {
                    &&& final(self)@ == old(self)@
                    &&& if idx >= old(self)@.slots.len() {
                        e is SlotUnseal
                    } else {
                        &&& e is LastSlotRevocation
                        &&& slot_enabled(old(self)@.slots[idx as int])
                        &&& enabled_slots(old(self)@.slots) <= 1
                    }
                },
            },
    {
        if idx >= self.slots.len() {
            return Err(AegisError::SlotUnseal);
        }
        if !self.slots[idx].is_enabled() {
            return Ok(());
        }
        if self.enabled_count() <= 1 {
            return Err(AegisError::LastSlotRevocation);
        }
        let flags: u8 = self.slots[idx].flags;
        assert(flags % 2 == 1 ==> flags & 0b1111_1110 == flags - 1) by (bit_vector);
        self.slots[idx].flags = flags & 0b1111_1110;
        self.slots[idx].ct = [0u8; CT_LEN];
        assert(self.slots@[idx as int].ct@ =~= zeros(CT_LEN as nat));
        assert(self@.slots =~= old(self)@.slots.update(
            idx as int,
            revoked_slot(old(self)@.slots[idx as int]),
        ));
        Ok(())
    }

    /// Tries a passphrase on every enabled slot in turn. Returns the index of
    /// the first slot that opens, and the master key in it.
    pub fn unseal_with(&self, passphrase: &[u8]) -> (result: Result<(usize, AegisKey)>)
        ensures
            match result {
                Ok((i, key)) => {
                    &&& first_opening(self@.slots, passphrase@, i as int)
                    &&& slot_master(self@.slots[i as int], passphrase@) == Some(key@)
                    &&& table_master(self@.slots, passphrase@) == Some(key@)
                    &&& key@.len() == MASTER_LEN
                },
                Err(e) => {
                    &&& e is NoSlotUnsealed
                    &&& none_opens(self@.slots, passphrase@)
                    &&& table_master(self@.slots, passphrase@) is None
                },
            },
    {
        let mut i: usize = 0;
        while i < self.slots.len()
            invariant
                i <= self.slots@.len(),
                forall|j: int|
                    0 <= j < i ==> !slot_opens(#[trigger] self@.slots[j], passphrase@),
            decreases self.slots@.len() - i,
        {
            if self.slots[i].is_enabled() {
                if let Ok(key) = self.slots[i].unseal(passphrase) {
                    assert(slot_opens(self@.slots[i as int], passphrase@));
                    proof {
                        laws::law_table_master(self@.slots, passphrase@, i as int);
                    }
                    return Ok((i, key));
                }
            }
            i = i + 1;
        }
        Err(AegisError::NoSlotUnsealed)
    }

    /// Encodes the table, with its mac.
    pub fn to_bytes(&self) -> (bytes: Vec<u8>)
        ensures
            bytes@ == table_bytes(self@),
    {
        let mut out: Vec<u8> = self.body_bytes();
        let mac: [u8; 32] = blake3_keyed(&self.header_salt, &out);
        append(&mut out, &mac);
        out
    }

    /// Encodes all of the table but its mac.
    pub fn body_bytes(&self) -> (body: Vec<u8>)
        ensures
            body@ == table_body(self@),
    {
        let ghost slots = self@.slots;
        let mut body: Vec<u8> = Vec::new();
        append(&mut body, HEADER_MAGIC);
        body.push(HEADER_VERSION);
        body.push((self.slots.len() % 256) as u8);
        let ghost header = body@;
        assert(header =~= HEADER_MAGIC@ + seq![HEADER_VERSION, (slots.len() % 256) as u8]);
        let mut i: usize = 0;
        assert(slots.take(0) =~= Seq::empty());
        assert(body@ =~= header + slots_bytes(slots.take(0)));
        while i < self.slots.len()
            invariant
                slots == self@.slots,
                i <= slots.len() == self.slots@.len(),
                body@ == header + slots_bytes(slots.take(i as int)),
            decreases slots.len() - i,
        {
            write_slot(&mut body, &self.slots[i]);
            assert(slots.take(i + 1).drop_last() =~= slots.take(i as int));
            assert(body@ =~= header + slots_bytes(slots.take(i + 1)));
            i = i + 1;
        }
        assert(slots.take(i as int) =~= slots);
        append(&mut body, &self.verifier);
        body
    }

    /// Reads a table, and checks its mac. An authentic table that ends before
    /// all that it announces is a [`AegisError::Serialization`] error.
    pub fn from_bytes(data: &[u8], header_salt: &[u8; 32]) -> (result: Result<Self>)
        ensures
            match result {
                Ok(table) => parsed_table(data@, header_salt@) == Ok::<TableModel, AegisError>(
                    table@,
                ),
                Err(e) => parsed_table(data@, header_salt@) == Err::<TableModel, AegisError>(e),
            },
    {
        if data.len() < 5 + MAC_LEN {
            return Err(AegisError::Serialization);
        }
        let expected: [u8; 32] = blake3_keyed(header_salt, &data[0..data.len() - MAC_LEN]);
        Self::from_bytes_with_mac(data, header_salt, &expected)
    }

    /// Reads a table, given the mac that it must end in.
    pub fn from_bytes_with_mac(data: &[u8], header_salt: &[u8; 32], expected: &[u8; 32]) -> (result:
        Result<Self>)
        ensures
            match result {
                Ok(table) => parsed_with_mac(data@, header_salt@, expected@) == Ok::<
                    TableModel,
                    AegisError,
                >(table@),
                Err(e) => parsed_with_mac(data@, header_salt@, expected@) == Err::<
                    TableModel,
                    AegisError,
                >(e),
            },
    {
        if data.len() < 5 + MAC_LEN {
            return Err(AegisError::Serialization);
        }
        let split: usize = data.len() - MAC_LEN;
        let body: &[u8] = &data[0..split];
        if !ct_eq_slice(expected, &data[split..data.len()]) {
            return Err(AegisError::HeaderIntegrity);
        }
        if !same(&body[0..4], HEADER_MAGIC) || body[4] != HEADER_VERSION || body.len() < 6 {
            return Err(AegisError::Serialization);
        }
        let slot_count: usize = body[5] as usize;
        let mut pos: usize = 6;
        let mut slots: Vec<KeySlot> = Vec::new();
        let mut i: usize = 0;
        while i < slot_count
            invariant
                i <= slot_count <= 255,
                pos == 6 + SLOT_LEN * i,
                slots@.len() == i,
                forall|j: int|
                    0 <= j < i ==> #[trigger] slots@[j]@ == slot_from_bytes(
                        body@.subrange(6 + SLOT_LEN * j, 6 + SLOT_LEN * j + SLOT_LEN),
                    ),
                data@.len() >= 5 + MAC_LEN,
                body@ == data@.subrange(0, data@.len() - MAC_LEN),
                data@.subrange(data@.len() - MAC_LEN, data@.len() as int) == expected@,
                body@.len() >= 6,
                body@[5] == slot_count,
            decreases slot_count - i,
        {
            match read_slot(body, &mut pos) {
                Ok(slot) => slots.push(slot),
                Err(e) => {
                    return Err(e);
                },
            }
            i = i + 1;
        }
        match slice_at(body, &mut pos, 32) {
            Ok(verifier) => {
                let table = KeySlotTable {
                    header_salt: *header_salt,
                    slots,
                    verifier: array_from(verifier),
                };
                assert(table@.slots =~= parsed_slots(body@, slot_count as nat));
                Ok(table)
            },
            Err(e) => Err(e),
        }
    }
}

impl KeySlotTable {
    /// What `Debug` shows of this table: how many slots there are, but no
    /// salt, verifier or slot.
    pub fn debug_fields(&self) -> (fields: Vec<DebugField>)
        ensures
            fields@ == seq![
                DebugField { name: "header_salt", value: DebugValue::Redacted },
                DebugField { name: "verifier", value: DebugValue::Redacted },
                DebugField {
                    name: "slot_count",
                    value: DebugValue::Number(self@.slots.len() as u64),
                },
                DebugField {
                    name: "enabled_count",
                    value: DebugValue::Number(enabled_slots(self@.slots) as u64),
                },
            ],
    {
        let slot_count: u64 = self.slots.len() as u64;
        let enabled_count: u64 = self.enabled_count() as u64;
        let mut fields: Vec<DebugField> = Vec::new();
        fields.push(DebugField { name: "header_salt", value: DebugValue::Redacted });
        fields.push(DebugField { name: "verifier", value: DebugValue::Redacted });
        fields.push(DebugField { name: "slot_count", value: DebugValue::Number(slot_count) });
        fields.push(DebugField { name: "enabled_count", value: DebugValue::Number(enabled_count) });
        fields
    }
}

impl core::fmt::Debug for KeySlotTable {
    /// Shows [`KeySlotTable::debug_fields`].
    fn fmt(&self, f: &mut core::fmt::Formatter<'_>) -> core::fmt::Result {
        show(f, "KeySlotTable", &self.debug_fields())
    }
}

/// Rotation of the master key of a volume. The data of the volume is
/// encrypted anew by deriving the key hierarchy from the new master key.
pub struct VolumeKeyRotation;

impl VolumeKeyRotation {
    /// A fresh random master key.
    pub fn rotate() -> (key: AegisKey)
        ensures
            key@.len() == MASTER_LEN,
            is_drawn(key@),
    {
        Self::draw().0
    }

    /// A fresh random master key, with the evidence of its draw.
    pub fn draw() -> (drawn: (AegisKey, Draw))
        ensures
            drawn.0@ == drawn.1.bytes(),
            drawn.0@.len() == MASTER_LEN,
    {
        let (mut master, draw): ([u8; MASTER_LEN], Draw) = random_bytes();
        let key = AegisKey::new32(&master);
        zeroize_bytes(&mut master);
        (key, draw)
    }
}

/// The seconds of a clock reading, or zero where there are none.
pub fn seconds_or_zero(elapsed: Option<u64>) -> (secs: u64)
    ensures
        secs == (match elapsed {
            Some(s) => s,
            None => 0,
        }),
{
    match elapsed {
        Some(s) => s,
        None => 0,
    }
}

/// The current Unix time in seconds, or zero where the clock reads earlier
/// than the epoch. Only bookkeeping uses it; the clock alone decides it.
fn now_secs() -> u64 {
    match since_unix_epoch(std::time::SystemTime::now()) {
        Ok(span) => seconds_or_zero(Some(span.as_secs())),
        Err(_) => seconds_or_zero(None),
    }
}

} // verus!

//! What holds of vaults over several operations.

use super::{reopened, valid_vault, VaultModel};
use crate::aead::{opened, AeadAlgo};
use crate::error::AegisError;
use crate::hierarchy::{domain_key, Domain};
use crate::primitives::blake3_keyed_hash;
use crate::slots::encoding::{
    law_table_round_trip, lemma_slots_bytes, parsed_table, table_body, table_bytes,
};
use crate::slots::laws::{
    law_first_user_gets_in, law_revoked_user_is_out, law_some_slot_opens_first, law_table_master,
};
use crate::slots::{
    enabled_slots, extended_table, first_opening, initial_table, revoked_slot, slot_enabled,
    slot_master, slot_opens, table_shape, volume_check, TableModel, MAC_LEN, VERIFIER_KEY,
};
use vstd::prelude::*;

verus! {

/// Law: a persisted vault is the same vault again once it is reopened with a
/// passphrase that recovers its master key.
pub proof fn law_persisted_vault_reopens(v: VaultModel, t: TableModel, passphrase: Seq<u8>, i: int)
    requires
        valid_vault(v),
        v.slots == Some(t),
        first_opening(t.slots, passphrase, i),
        slot_master(t.slots[i], passphrase) == Some(v.master),
    ensures
        reopened(table_bytes(t), t.header_salt, passphrase) == Ok::<VaultModel, AegisError>(v),
{
    law_table_round_trip(t);
    law_table_master(t.slots, passphrase, i);
}

/// Law: a vault whose slots were sealed under a passphrase is reopened with it.
pub proof fn law_sealed_vault_reopens(v: VaultModel, t: TableModel, passphrase: Seq<u8>)
    requires
        valid_vault(v),
        v.slots == Some(t),
        initial_table(t, v.master, passphrase),
    ensures
        reopened(table_bytes(t), t.header_salt, passphrase) == Ok::<VaultModel, AegisError>(v),
{
    law_first_user_gets_in(t, v.master, passphrase);
    law_persisted_vault_reopens(v, t, passphrase, 0);
}

/// Law: a user who was added reopens the vault with their own passphrase,
/// unless it opens an earlier slot to another master key.
pub proof fn law_added_user_reopens(
    v: VaultModel,
    t: TableModel,
    before: TableModel,
    passphrase: Seq<u8>,
)
    requires
        valid_vault(v),
        v.slots == Some(t),
        extended_table(t, before, v.master, passphrase),
        forall|j: int|
            0 <= j < before.slots.len() && slot_opens(#[trigger] before.slots[j], passphrase)
                ==> slot_master(before.slots[j], passphrase) == Some(v.master),
    ensures
        reopened(table_bytes(t), t.header_salt, passphrase) == Ok::<VaultModel, AegisError>(v),
{
    let n = before.slots.len() as int;
    assert(slot_opens(t.slots[n], passphrase));
    let first = law_some_slot_opens_first(t.slots, passphrase, n);
    if first < n {
        assert(t.slots.drop_last()[first] == t.slots[first]);
        assert(slot_opens(before.slots[first], passphrase));
    }
    law_persisted_vault_reopens(v, t, passphrase, first);
}

/// Law: a user whose only slot was revoked does not reopen the vault.
pub proof fn law_revoked_user_does_not_reopen(
    v: VaultModel,
    t: TableModel,
    idx: int,
    passphrase: Seq<u8>,
)
    requires
        valid_vault(v),
        v.slots == Some(t),
        0 <= idx < t.slots.len(),
        slot_enabled(t.slots[idx]),
        forall|j: int|
            0 <= j < t.slots.len() && j != idx ==> !slot_opens(#[trigger] t.slots[j], passphrase),
    ensures
        ({
            let after = TableModel {
                slots: t.slots.update(idx, revoked_slot(t.slots[idx])),
                ..t
            };
            reopened(table_bytes(after), after.header_salt, passphrase) == Err::<
                VaultModel,
                AegisError,
            >(AegisError::NoSlotUnsealed)
        }),
{
    let after = TableModel { slots: t.slots.update(idx, revoked_slot(t.slots[idx])), ..t };
    law_table_round_trip(after);
    law_revoked_user_is_out(t.slots, idx, passphrase);
}

/// Law: what reopens carries a slot table, and passes its volume check.
pub proof fn law_reopened_vault_is_verified(
    data: Seq<u8>,
    header_salt: Seq<u8>,
    passphrase: Seq<u8>,
    v: VaultModel,
)
    requires
        reopened(data, header_salt, passphrase) == Ok::<VaultModel, AegisError>(v),
    ensures
        v.slots matches Some(t) && t.verifier == volume_check(v.master),
{
}

/// Law: a persisted table that was changed in any byte of its mac reopens with
/// no passphrase.
pub proof fn law_changed_mac_does_not_reopen(t: TableModel, changed: Seq<u8>, passphrase: Seq<u8>)
    requires
        table_shape(t),
        changed.len() == table_bytes(t).len(),
        changed.subrange(0, changed.len() - MAC_LEN) == table_body(t),
        changed != table_bytes(t),
    ensures
        reopened(changed, t.header_salt, passphrase) == Err::<VaultModel, AegisError>(
            AegisError::HeaderIntegrity,
        ),
{
    let split = changed.len() - MAC_LEN;
    let mac = blake3_keyed_hash(t.header_salt, table_body(t))@;
    lemma_slots_bytes(t.slots);
    if changed.subrange(split, changed.len() as int) == mac {
        assert(changed =~= changed.subrange(0, split) + changed.subrange(
            split,
            changed.len() as int,
        ));
    }
}

/// Law: what a vault encrypted, it still decrypts after it was persisted and
/// reopened.
pub proof fn law_messages_survive_reopening(
    v: VaultModel,
    t: TableModel,
    passphrase: Seq<u8>,
    i: int,
    d: Domain,
    algo: AeadAlgo,
    nonce: Seq<u8>,
    ct: Seq<u8>,
    aad: Seq<u8>,
    plaintext: Seq<u8>,
)
    requires
        valid_vault(v),
        v.slots == Some(t),
        first_opening(t.slots, passphrase, i),
        slot_master(t.slots[i], passphrase) == Some(v.master),
        opened(algo, domain_key(v.master, d), nonce, ct, aad) == Some(plaintext),
    ensures
        reopened(table_bytes(t), t.header_salt, passphrase) matches Ok(w) && opened(
            algo,
            domain_key(w.master, d),
            nonce,
            ct,
            aad,
        ) == Some(plaintext),
{
    law_persisted_vault_reopens(v, t, passphrase, i);
}

/// Law: a valid vault has a 256-bit master key; its slot table, if it has one,
/// carries the keyed hash of that key, has an enabled slot, and has at most as
/// many slots as its encoding can count.
pub proof fn law_valid_vault(v: VaultModel)
    requires
        valid_vault(v),
    ensures
        v.master.len() == 32,
        v.slots matches Some(t) ==> {
            &&& table_shape(t)
            &&& t.verifier == blake3_keyed_hash(VERIFIER_KEY@, v.master)@
            &&& enabled_slots(t.slots) >= 1
            &&& t.slots.len() <= 255
        },
{
}

/// Law: bytes that are no table, or a passphrase that opens no slot, reopen
/// nothing.
pub proof fn law_what_does_not_reopen(
    data: Seq<u8>,
    header_salt: Seq<u8>,
    passphrase: Seq<u8>,
    t: TableModel,
    e: AegisError,
)
    ensures
        parsed_table(data, header_salt) == Err::<TableModel, AegisError>(e) ==> reopened(
            data,
            header_salt,
            passphrase,
        ) == Err::<VaultModel, AegisError>(e),
        parsed_table(data, header_salt) == Ok::<TableModel, AegisError>(t) && (forall|j: int|
            0 <= j < t.slots.len() ==> !slot_opens(#[trigger] t.slots[j], passphrase)) ==> reopened(
            data,
            header_salt,
            passphrase,
        ) == Err::<VaultModel, AegisError>(AegisError::NoSlotUnsealed),
{
}

/// Law: what reopens is the table with the master key of the first slot that
/// opens, if its keyed hash is the verifier of the table; otherwise the volume
/// does not match.
pub proof fn law_what_reopens(
    data: Seq<u8>,
    header_salt: Seq<u8>,
    passphrase: Seq<u8>,
    t: TableModel,
    i: int,
    master: Seq<u8>,
)
    requires
        parsed_table(data, header_salt) == Ok::<TableModel, AegisError>(t),
        first_opening(t.slots, passphrase, i),
        slot_master(t.slots[i], passphrase) == Some(master),
    ensures
        blake3_keyed_hash(VERIFIER_KEY@, master)@ == t.verifier ==> reopened(
            data,
            header_salt,
            passphrase,
        ) == Ok::<VaultModel, AegisError>(VaultModel { master, slots: Some(t) }),
        blake3_keyed_hash(VERIFIER_KEY@, master)@ != t.verifier ==> reopened(
            data,
            header_salt,
            passphrase,
        ) == Err::<VaultModel, AegisError>(AegisError::VolumeMismatch),
{
    law_table_master(t.slots, passphrase, i);
}

} // verus!

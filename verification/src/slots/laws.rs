//! What holds of slot tables over several operations.

use super::{
    enabled_slots, extended_table, first_opening, initial_table, none_opens, revoked_slot,
    slot_enabled, slot_master, slot_opens, slot_shape, slot_wraps, table_master, table_shape,
    volume_check, KeySlot, KeySlotTable, SlotModel, TableModel, VERIFIER_KEY,
};
use crate::primitives::{
    aes256gcm_ciphertext, aes256gcm_plaintext, argon2id_tag, blake3_keyed_hash,
};
use vstd::prelude::*;

verus! {

/// Replacing a slot changes the number of enabled slots by what the old and
/// the new slot contribute.
proof fn lemma_enabled_update(slots: Seq<SlotModel>, i: int, s: SlotModel)
    requires
        0 <= i < slots.len(),
    ensures
        enabled_slots(slots.update(i, s)) + (if slot_enabled(slots[i]) {
            1int
        } else {
            0
        }) == enabled_slots(slots) + (if slot_enabled(s) {
            1int
        } else {
            0
        }),
    decreases slots.len(),
{
    reveal(Seq::filter);
    let last = slots.len() - 1;
    if i < last {
        lemma_enabled_update(slots.drop_last(), i, s);
        assert(slots.update(i, s).drop_last() =~= slots.drop_last().update(i, s));
    } else {
        assert(slots.update(i, s).drop_last() =~= slots.drop_last());
    }
}

/// A table with an enabled slot has at least one.
proof fn lemma_enabled_positive(slots: Seq<SlotModel>, i: int)
    requires
        0 <= i < slots.len(),
        slot_enabled(slots[i]),
    ensures
        enabled_slots(slots) >= 1,
    decreases slots.len(),
{
    reveal(Seq::filter);
    if i < slots.len() - 1 {
        lemma_enabled_positive(slots.drop_last(), i);
    }
}

/// Law: a passphrase opens at most one slot first, so trying it has one
/// outcome.
pub proof fn law_first_opening_is_unique(
    slots: Seq<SlotModel>,
    passphrase: Seq<u8>,
    i: int,
    j: int,
)
    requires
        first_opening(slots, passphrase, i),
        first_opening(slots, passphrase, j),
    ensures
        i == j,
        !none_opens(slots, passphrase),
{
    assert(slot_opens(slots[i], passphrase) && slot_opens(slots[j], passphrase));
}

/// Law: the master key that a passphrase recovers is that of the first slot
/// that it opens.
pub proof fn law_table_master(slots: Seq<SlotModel>, passphrase: Seq<u8>, i: int)
    requires
        first_opening(slots, passphrase, i),
    ensures
        table_master(slots, passphrase) == slot_master(slots[i], passphrase),
{
    law_first_opening_is_unique(
        slots,
        passphrase,
        i,
        choose|j: int| first_opening(slots, passphrase, j),
    );
}

/// Law: a passphrase that opens any slot opens one of them first.
pub proof fn law_some_slot_opens_first(
    slots: Seq<SlotModel>,
    passphrase: Seq<u8>,
    i: int,
) -> (first: int)
    requires
        0 <= i < slots.len(),
        slot_opens(slots[i], passphrase),
    ensures
        first <= i,
        first_opening(slots, passphrase, first),
    decreases i,
{
    if exists|j: int| 0 <= j < i && slot_opens(#[trigger] slots[j], passphrase) {
        let j = choose|j: int| 0 <= j < i && slot_opens(#[trigger] slots[j], passphrase);
        law_some_slot_opens_first(slots, passphrase, j)
    } else {
        i
    }
}

/// Law: a new table has one enabled slot, and the passphrase opens it to the
/// master key.
pub proof fn law_first_user_gets_in(t: TableModel, master: Seq<u8>, passphrase: Seq<u8>)
    requires
        initial_table(t, master, passphrase),
    ensures
        enabled_slots(t.slots) == 1,
        first_opening(t.slots, passphrase, 0),
        slot_master(t.slots[0], passphrase) == Some(master),
{
    reveal(Seq::filter);
    assert(t.slots.drop_last() =~= Seq::empty());
    assert(slot_opens(t.slots[0], passphrase));
}

/// Law: after a slot was added, its user gets in. Where the passphrase opened
/// no slot before, it opens the new slot, to the master key.
pub proof fn law_added_user_gets_in(
    t: TableModel,
    before: TableModel,
    master: Seq<u8>,
    passphrase: Seq<u8>,
)
    requires
        extended_table(t, before, master, passphrase),
    ensures
        !none_opens(t.slots, passphrase),
        none_opens(before.slots, passphrase) ==> {
            &&& first_opening(t.slots, passphrase, before.slots.len() as int)
            &&& slot_master(t.slots[before.slots.len() as int], passphrase) == Some(master)
        },
        enabled_slots(t.slots) == enabled_slots(before.slots) + 1,
{
    reveal(Seq::filter);
    let n = before.slots.len() as int;
    assert(slot_opens(t.slots[n], passphrase));
    assert forall|j: int| 0 <= j < n implies t.slots[j] == before.slots[j] by {
        assert(t.slots.drop_last()[j] == t.slots[j]);
    }
}

/// Law: adding a slot for one user leaves the others where they were.
pub proof fn law_adding_keeps_other_users(
    t: TableModel,
    before: TableModel,
    master: Seq<u8>,
    passphrase: Seq<u8>,
    other: Seq<u8>,
    i: int,
)
    requires
        extended_table(t, before, master, passphrase),
        first_opening(before.slots, other, i),
    ensures
        first_opening(t.slots, other, i),
        t.slots[i] == before.slots[i],
{
    assert forall|j: int| 0 <= j < before.slots.len() implies t.slots[j] == before.slots[j] by {
        assert(t.slots.drop_last()[j] == t.slots[j]);
    }
}

/// Law: a revoked slot opens with no passphrase.
pub proof fn law_revoked_slot_stays_shut(s: SlotModel, passphrase: Seq<u8>)
    requires
        slot_enabled(s),
    ensures
        !slot_enabled(revoked_slot(s)),
        !slot_opens(revoked_slot(s), passphrase),
{
}

/// Law: a revoked slot keeps nothing of the sealed master key: slots that
/// differ in it alone are the same once they are revoked.
pub proof fn law_revoked_slot_forgets(s: SlotModel, ct: Seq<u8>)
    ensures
        revoked_slot(SlotModel { ct, ..s }) == revoked_slot(s),
{
}

/// Law: a passphrase that opened only the revoked slot opens nothing more.
pub proof fn law_revoked_user_is_out(slots: Seq<SlotModel>, idx: int, passphrase: Seq<u8>)
    requires
        0 <= idx < slots.len(),
        slot_enabled(slots[idx]),
        forall|j: int|
            0 <= j < slots.len() && j != idx ==> !slot_opens(#[trigger] slots[j], passphrase),
    ensures
        none_opens(slots.update(idx, revoked_slot(slots[idx])), passphrase),
{
    law_revoked_slot_stays_shut(slots[idx], passphrase);
}

/// Law: revoking a slot leaves a user of another slot where they were.
pub proof fn law_revoking_keeps_other_users(
    slots: Seq<SlotModel>,
    idx: int,
    passphrase: Seq<u8>,
    i: int,
)
    requires
        0 <= idx < slots.len(),
        slot_enabled(slots[idx]),
        first_opening(slots, passphrase, i),
        i != idx,
    ensures
        first_opening(slots.update(idx, revoked_slot(slots[idx])), passphrase, i),
        slots.update(idx, revoked_slot(slots[idx]))[i] == slots[i],
{
    let after = slots.update(idx, revoked_slot(slots[idx]));
    law_revoked_slot_stays_shut(slots[idx], passphrase);
    assert forall|j: int| 0 <= j < i implies !slot_opens(#[trigger] after[j], passphrase) by {
        assert(!slot_opens(slots[j], passphrase));
    }
}

/// Law: a revocation disables exactly one slot. As the last enabled slot is
/// never revoked, an enabled slot is left.
pub proof fn law_revocation_leaves_an_enabled_slot(slots: Seq<SlotModel>, idx: int)
    requires
        0 <= idx < slots.len(),
        slot_enabled(slots[idx]),
    ensures
        enabled_slots(slots.update(idx, revoked_slot(slots[idx]))) == enabled_slots(slots) - 1,
        enabled_slots(slots) > 1 ==> enabled_slots(
            slots.update(idx, revoked_slot(slots[idx])),
        ) >= 1,
{
    lemma_enabled_positive(slots, idx);
    lemma_enabled_update(slots, idx, revoked_slot(slots[idx]));
}

/// Law: whoever gets in gets in through an enabled slot.
pub proof fn law_access_needs_an_enabled_slot(slots: Seq<SlotModel>, passphrase: Seq<u8>, i: int)
    requires
        first_opening(slots, passphrase, i),
    ensures
        slot_enabled(slots[i]),
        enabled_slots(slots) >= 1,
{
    lemma_enabled_positive(slots, i);
}

/// Law: a slot holds what its fields hold.
pub proof fn law_slot_holds_its_fields(slot: KeySlot)
    ensures
        slot@.slot_id == slot.slot_id@,
        slot@.kdf_id == slot.kdf_id,
        slot@.m_cost == slot.m_cost,
        slot@.t_cost == slot.t_cost,
        slot@.salt == slot.salt@,
        slot@.nonce == slot.nonce@,
        slot@.ct == slot.ct@,
        slot@.flags == slot.flags,
        slot@.created_at == slot.created_at,
        slot_shape(slot@),
{
}

/// Law: a table holds what its fields hold.
pub proof fn law_table_holds_its_fields(table: KeySlotTable)
    ensures
        table@.header_salt == table.header_salt@,
        table@.verifier == table.verifier@,
        table@.slots.len() == table.slots@.len(),
        forall|i: int|
            0 <= i < table.slots@.len() ==> #[trigger] table@.slots[i] == table.slots@[i]@,
        table_shape(table@),
{
}

/// Law: the fixed lengths of a slot and of a table.
pub proof fn law_fixed_lengths(s: SlotModel, t: TableModel, i: int)
    ensures
        slot_shape(s) <==> s.slot_id.len() == 16 && s.salt.len() == 16 && s.nonce.len() == 12
            && s.ct.len() == 48,
        table_shape(t) ==> t.header_salt.len() == 32 && t.verifier.len() == 32,
        table_shape(t) && 0 <= i < t.slots.len() ==> slot_shape(t.slots[i]),
{
}

/// Law: a slot is enabled by the lowest bit of its flags alone.
pub proof fn law_lowest_flag_enables(s: SlotModel)
    ensures
        slot_enabled(s) <==> s.flags & 1 == 1,
{
    let flags = s.flags;
    assert((flags & 1 == 1) == (flags % 2 == 1)) by (bit_vector);
}

/// Law: a passphrase recovers from a slot what AES-256-GCM recovers from the
/// whole sealed key, under the Argon2id tag of the whole passphrase at the
/// slot's salt and costs, bound to the magic bytes, where that has the length
/// of a master key.
pub proof fn law_slot_master_is_what_the_cipher_recovers(
    s: SlotModel,
    passphrase: Seq<u8>,
    master: Seq<u8>,
)
    requires
        slot_shape(s),
    ensures
        slot_master(s, passphrase) == Some(master) <==> {
            &&& s.m_cost >= 8
            &&& s.t_cost >= 1
            &&& passphrase.len() <= 0xffff_ffff
            &&& master.len() == 32
            &&& aes256gcm_plaintext(
                argon2id_tag(passphrase, s.salt, s.m_cost, s.t_cost, 1)@,
                s.nonce,
                s.ct,
                seq![0x53u8, 0x4f, 0x54, 0x4b],
            ) == Some(master)
        },
{
    assert(super::HEADER_MAGIC@ =~= seq![0x53u8, 0x4f, 0x54, 0x4b]);
}

/// Law: a new slot holds the master key as AES-256-GCM seals it whole, under
/// the Argon2id tag of the whole passphrase at the slot's salt and costs, and
/// gives it back to that passphrase.
pub proof fn law_new_slot_wraps_the_master(
    s: SlotModel,
    master: Seq<u8>,
    passphrase: Seq<u8>,
    m_cost: u32,
    t_cost: u32,
)
    requires
        slot_wraps(s, master, passphrase, m_cost, t_cost),
    ensures
        slot_shape(s),
        s.kdf_id == 1,
        s.m_cost == m_cost,
        s.t_cost == t_cost,
        s.flags == 1,
        s.ct == aes256gcm_ciphertext(
            argon2id_tag(passphrase, s.salt, m_cost, t_cost, 1)@,
            s.nonce,
            master,
            seq![0x53u8, 0x4f, 0x54, 0x4b],
        ),
        aes256gcm_plaintext(
            argon2id_tag(passphrase, s.salt, m_cost, t_cost, 1)@,
            s.nonce,
            s.ct,
            seq![0x53u8, 0x4f, 0x54, 0x4b],
        ) == Some(master),
        slot_master(s, passphrase) == Some(master),
{
    assert(super::HEADER_MAGIC@ =~= seq![0x53u8, 0x4f, 0x54, 0x4b]);
}

/// Law: a slot opens for a passphrase exactly if it is enabled and gives a
/// master key; a slot is the first to open exactly if it opens and none before
/// it does; and none opens exactly if none does.
pub proof fn law_who_opens(slots: Seq<SlotModel>, passphrase: Seq<u8>, i: int)
    requires
        0 <= i < slots.len(),
    ensures
        slot_opens(slots[i], passphrase) <==> slots[i].flags % 2 == 1 && slot_master(
            slots[i],
            passphrase,
        ) is Some,
        first_opening(slots, passphrase, i) ==> slot_opens(slots[i], passphrase),
        first_opening(slots, passphrase, i) ==> forall|j: int|
            0 <= j < i ==> !slot_opens(#[trigger] slots[j], passphrase),
        slot_opens(slots[i], passphrase) && !first_opening(slots, passphrase, i) ==> exists|j: int|
            0 <= j < i && slot_opens(#[trigger] slots[j], passphrase),
        none_opens(slots, passphrase) ==> !slot_opens(slots[i], passphrase),
{
}

/// Law: where no slot opens, no master key is recovered; where one does, the
/// master key is that of the first.
pub proof fn law_recovered_master_is_that_of_the_first_slot(
    slots: Seq<SlotModel>,
    passphrase: Seq<u8>,
)
    ensures
        table_master(slots, passphrase) is None <==> forall|j: int|
            0 <= j < slots.len() ==> !slot_opens(#[trigger] slots[j], passphrase),
        table_master(slots, passphrase) matches Some(master) ==> exists|i: int|
            #![trigger first_opening(slots, passphrase, i)]
            first_opening(slots, passphrase, i) && slot_master(slots[i], passphrase) == Some(
                master,
            ),
{
    if !none_opens(slots, passphrase) {
        let k = choose|j: int| 0 <= j < slots.len() && slot_opens(#[trigger] slots[j], passphrase);
        let first = law_some_slot_opens_first(slots, passphrase, k);
        law_table_master(slots, passphrase, first);
        assert(slot_opens(slots[first], passphrase));
    }
}

/// Law: counting enabled slots starts at zero, and each slot counts by its
/// lowest flag bit.
pub proof fn law_enabled_slots_are_counted(slots: Seq<SlotModel>, s: SlotModel)
    ensures
        enabled_slots(Seq::empty()) == 0,
        enabled_slots(slots.push(s)) == enabled_slots(slots) + (s.flags % 2),
{
    reveal(Seq::filter);
    assert(slots.push(s).drop_last() =~= slots);
}

/// Law: a revoked slot differs from the slot in two things alone: its lowest
/// flag bit is clear, and its sealed key is 48 zero bytes.
pub proof fn law_revoked_slot(s: SlotModel)
    ensures
        revoked_slot(s).flags == s.flags & 0xfe,
        revoked_slot(s).ct == Seq::new(48, |i: int| 0u8),
        revoked_slot(s).slot_id == s.slot_id,
        revoked_slot(s).kdf_id == s.kdf_id,
        revoked_slot(s).m_cost == s.m_cost,
        revoked_slot(s).t_cost == s.t_cost,
        revoked_slot(s).salt == s.salt,
        revoked_slot(s).nonce == s.nonce,
        revoked_slot(s).created_at == s.created_at,
{
    let flags = s.flags;
    assert(flags & 0xfe == flags - flags % 2) by (bit_vector);
    assert(revoked_slot(s).ct =~= Seq::new(48, |i: int| 0u8));
}

/// Law: the check value of a volume is the keyed BLAKE3 hash of the whole
/// master key, so two master keys with the same check value are a collision.
pub proof fn law_volume_check_is_a_keyed_hash(master: Seq<u8>, other: Seq<u8>)
    ensures
        volume_check(master) == blake3_keyed_hash(VERIFIER_KEY@, master)@,
        volume_check(master) == volume_check(other) ==> blake3_keyed_hash(VERIFIER_KEY@, master)@
            == blake3_keyed_hash(VERIFIER_KEY@, other)@,
{
}

/// Law: a new table carries the keyed hash of its master key, and has one slot,
/// which wraps the master key at the costs of a table.
pub proof fn law_initial_table(t: TableModel, master: Seq<u8>, passphrase: Seq<u8>)
    requires
        initial_table(t, master, passphrase),
    ensures
        t.verifier == blake3_keyed_hash(VERIFIER_KEY@, master)@,
        t.slots.len() == 1,
        slot_wraps(t.slots[0], master, passphrase, 64, 3),
{
}

/// Law: adding a slot keeps the table and appends one slot, which wraps the
/// master key at the costs of a table.
pub proof fn law_extended_table(
    t: TableModel,
    before: TableModel,
    master: Seq<u8>,
    passphrase: Seq<u8>,
)
    requires
        extended_table(t, before, master, passphrase),
    ensures
        t.header_salt == before.header_salt,
        t.verifier == before.verifier,
        t.slots == before.slots.push(t.slots.last()),
        slot_wraps(t.slots.last(), master, passphrase, 64, 3),
{
    assert(t.slots =~= t.slots.drop_last().push(t.slots.last()));
}

} // verus!

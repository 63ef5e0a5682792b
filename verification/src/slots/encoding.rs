//! The byte encoding of slot tables.

use super::{
    slot_shape, table_shape, KeySlot, SlotModel, TableModel, CT_LEN, HEADER_MAGIC, HEADER_VERSION,
    MAC_LEN, NONCE_LEN, SLOT_LEN,
};
use crate::bytes::{
    append, array_from, law_le32_digits, law_le64_digits, le32, le32_value, le64, le64_value,
    lemma_le32, lemma_le32_len, lemma_le64,
    u32_from_le, u32_to_le, u64_from_le, u64_to_le,
};
use crate::error::{AegisError, Result};
use crate::primitives::blake3_keyed_hash;
use vstd::prelude::*;

verus! {

/// The encoding of a slot.
#[verifier::opaque]
pub open spec fn slot_bytes(s: SlotModel) -> Seq<u8> {
    s.slot_id + seq![s.kdf_id] + le32(s.m_cost) + le32(s.t_cost) + s.salt + s.nonce + s.ct
        + seq![s.flags] + le64(s.created_at)
}

/// The slot that 110 bytes encode.
#[verifier::opaque]
pub open spec fn slot_from_bytes(b: Seq<u8>) -> SlotModel
    recommends
        b.len() == SLOT_LEN,
{
    SlotModel {
        slot_id: b.subrange(0, 16),
        kdf_id: b[16],
        m_cost: le32_value(b.subrange(17, 21)),
        t_cost: le32_value(b.subrange(21, 25)),
        salt: b.subrange(25, 41),
        nonce: b.subrange(41, 53),
        ct: b.subrange(53, 101),
        flags: b[101],
        created_at: le64_value(b.subrange(102, 110)),
    }
}

/// The encodings of slots, one after the other.
pub open spec fn slots_bytes(slots: Seq<SlotModel>) -> Seq<u8>
    decreases slots.len(),
{
    if slots.len() == 0 {
        Seq::empty()
    } else {
        slots_bytes(slots.drop_last()) + slot_bytes(slots.last())
    }
}

/// What the mac of a table covers. The slot count is one byte.
pub open spec fn table_body(t: TableModel) -> Seq<u8> {
    HEADER_MAGIC@ + seq![HEADER_VERSION, (t.slots.len() % 256) as u8] + slots_bytes(t.slots)
        + t.verifier
}

/// The encoding of a table.
pub open spec fn table_bytes(t: TableModel) -> Seq<u8> {
    table_body(t) + blake3_keyed_hash(t.header_salt, table_body(t))@
}

/// The slots that stand behind the header of a body.
pub open spec fn parsed_slots(body: Seq<u8>, count: nat) -> Seq<SlotModel> {
    Seq::new(
        count,
        |i: int| slot_from_bytes(body.subrange(6 + SLOT_LEN * i, 6 + SLOT_LEN * i + SLOT_LEN)),
    )
}

/// The table that an authentic body encodes. Bytes behind the verifier are
/// ignored.
pub open spec fn parsed_body(body: Seq<u8>, header_salt: Seq<u8>) -> Result<TableModel> {
    if body.len() < 6 || body.subrange(0, 4) != HEADER_MAGIC@ || body[4] != HEADER_VERSION
        || body.len() < 6 + SLOT_LEN * body[5] + 32 {
        Err(AegisError::Serialization)
    } else {
        let end = 6 + SLOT_LEN * body[5];
        Ok(
            TableModel {
                header_salt,
                slots: parsed_slots(body, body[5] as nat),
                verifier: body.subrange(end, end + 32),
            },
        )
    }
}

/// The table that bytes encode, if `mac` is the mac of their body.
pub open spec fn parsed_with_mac(
    data: Seq<u8>,
    header_salt: Seq<u8>,
    mac: Seq<u8>,
) -> Result<TableModel> {
    if data.len() < 5 + MAC_LEN {
        Err(AegisError::Serialization)
    } else if data.subrange(data.len() - MAC_LEN, data.len() as int) != mac {
        Err(AegisError::HeaderIntegrity)
    } else {
        parsed_body(data.subrange(0, data.len() - MAC_LEN), header_salt)
    }
}

/// The table that bytes encode.
pub open spec fn parsed_table(data: Seq<u8>, header_salt: Seq<u8>) -> Result<TableModel> {
    parsed_with_mac(
        data,
        header_salt,
        blake3_keyed_hash(header_salt, data.subrange(0, data.len() - MAC_LEN))@,
    )
}

/// Law: a slot is read back from its encoding.
pub proof fn law_slot_round_trip(s: SlotModel)
    requires
        slot_shape(s),
    ensures
        slot_bytes(s).len() == SLOT_LEN,
        slot_from_bytes(slot_bytes(s)) == s,
{
    reveal(slot_bytes);
    reveal(slot_from_bytes);
    let b = slot_bytes(s);
    lemma_le32_len(s.m_cost);
    lemma_le32_len(s.t_cost);
    lemma_le32(s.m_cost, le32(s.m_cost));
    lemma_le32(s.t_cost, le32(s.t_cost));
    lemma_le64(s.created_at, Seq::new(8, |i: int| 0u8));
    assert(b.subrange(0, 16) =~= s.slot_id);
    assert(b.subrange(17, 21) =~= le32(s.m_cost));
    assert(b.subrange(21, 25) =~= le32(s.t_cost));
    assert(b.subrange(25, 41) =~= s.salt);
    assert(b.subrange(41, 53) =~= s.nonce);
    assert(b.subrange(53, 101) =~= s.ct);
    assert(b.subrange(102, 110) =~= le64(s.created_at));
}

/// Law: any 110 bytes encode a slot, and only that slot.
pub proof fn law_slot_encoding_is_canonical(b: Seq<u8>)
    requires
        b.len() == SLOT_LEN,
    ensures
        slot_shape(slot_from_bytes(b)),
        slot_bytes(slot_from_bytes(b)) == b,
{
    reveal(slot_bytes);
    reveal(slot_from_bytes);
    let s = slot_from_bytes(b);
    lemma_le32(s.m_cost, b.subrange(17, 21));
    lemma_le32(s.t_cost, b.subrange(21, 25));
    lemma_le64(s.created_at, b.subrange(102, 110));
    assert(slot_bytes(s) =~= b);
}

/// The encodings of `n` slots have `n` times the length of one, and each slot
/// has its place in them.
pub proof fn lemma_slots_bytes(slots: Seq<SlotModel>)
    requires
        forall|i: int| 0 <= i < slots.len() ==> slot_shape(#[trigger] slots[i]),
    ensures
        slots_bytes(slots).len() == SLOT_LEN * slots.len(),
        forall|i: int|
            0 <= i < slots.len() ==> slots_bytes(slots).subrange(
                SLOT_LEN * i,
                SLOT_LEN * i + SLOT_LEN,
            ) == slot_bytes(#[trigger] slots[i]),
    decreases slots.len(),
{
    if slots.len() > 0 {
        let init = slots.drop_last();
        lemma_slots_bytes(init);
        law_slot_round_trip(slots.last());
        assert forall|i: int| 0 <= i < slots.len() implies slots_bytes(slots).subrange(
            SLOT_LEN * i,
            SLOT_LEN * i + SLOT_LEN,
        ) == slot_bytes(#[trigger] slots[i]) by {
            if i < init.len() {
                assert(init[i] == slots[i]);
                assert(slots_bytes(slots).subrange(SLOT_LEN * i, SLOT_LEN * i + SLOT_LEN)
                    =~= slots_bytes(init).subrange(SLOT_LEN * i, SLOT_LEN * i + SLOT_LEN));
            } else {
                assert(slots_bytes(slots).subrange(SLOT_LEN * i, SLOT_LEN * i + SLOT_LEN)
                    =~= slot_bytes(slots.last()));
            }
        }
    }
}

/// Bytes that hold the encoding of each slot at its place are the encodings of
/// the slots.
proof fn lemma_slots_bytes_unique(slots: Seq<SlotModel>, b: Seq<u8>)
    requires
        b.len() == SLOT_LEN * slots.len(),
        forall|i: int|
            0 <= i < slots.len() ==> b.subrange(SLOT_LEN * i, SLOT_LEN * i + SLOT_LEN)
                == slot_bytes(#[trigger] slots[i]),
    ensures
        b == slots_bytes(slots),
    decreases slots.len(),
{
    if slots.len() == 0 {
        assert(b =~= Seq::empty());
    } else {
        let init = slots.drop_last();
        let head = b.subrange(0, SLOT_LEN * init.len());
        assert forall|i: int| 0 <= i < init.len() implies head.subrange(
            SLOT_LEN * i,
            SLOT_LEN * i + SLOT_LEN,
        ) == slot_bytes(#[trigger] init[i]) by {
            assert(init[i] == slots[i]);
            assert(head.subrange(SLOT_LEN * i, SLOT_LEN * i + SLOT_LEN) =~= b.subrange(
                SLOT_LEN * i,
                SLOT_LEN * i + SLOT_LEN,
            ));
        }
        lemma_slots_bytes_unique(init, head);
        let last = slots.len() - 1;
        assert(slots[last] == slots.last());
        assert(b =~= head + b.subrange(SLOT_LEN * last, SLOT_LEN * last + SLOT_LEN));
    }
}

/// Law: a table of up to 255 slots, every field of it, is read back from its
/// encoding with its header salt.
pub proof fn law_table_round_trip(t: TableModel)
    requires
        table_shape(t),
        t.slots.len() <= 255,
    ensures
        parsed_table(table_bytes(t), t.header_salt) == Ok::<TableModel, AegisError>(t),
{
    let body = table_body(t);
    let data = table_bytes(t);
    let n = t.slots.len();
    lemma_slots_bytes(t.slots);
    assert(data.subrange(0, data.len() - MAC_LEN) =~= body);
    assert(data.subrange(data.len() - MAC_LEN, data.len() as int) =~= blake3_keyed_hash(
        t.header_salt,
        body,
    )@);
    assert(body.subrange(0, 4) =~= HEADER_MAGIC@);
    assert(body[4] == HEADER_VERSION);
    assert(body[5] == n);
    assert forall|i: int| 0 <= i < n implies slot_from_bytes(
        body.subrange(6 + SLOT_LEN * i, 6 + SLOT_LEN * i + SLOT_LEN),
    ) == #[trigger] t.slots[i] by {
        law_slot_round_trip(t.slots[i]);
        assert(body.subrange(6 + SLOT_LEN * i, 6 + SLOT_LEN * i + SLOT_LEN) =~= slots_bytes(
            t.slots,
        ).subrange(SLOT_LEN * i, SLOT_LEN * i + SLOT_LEN));
    }
    assert(parsed_slots(body, n) =~= t.slots);
    assert(body.subrange(6 + SLOT_LEN * n, 6 + SLOT_LEN * n + 32) =~= t.verifier);
}

/// The records of a body are the encodings of the slots that are read from
/// them.
proof fn lemma_records_are_canonical(body: Seq<u8>, n: nat)
    requires
        body.len() >= 6 + SLOT_LEN * n,
    ensures
        slots_bytes(parsed_slots(body, n)) == body.subrange(6, 6 + SLOT_LEN * n),
{
    let slots = parsed_slots(body, n);
    let records = body.subrange(6, 6 + SLOT_LEN * n);
    assert forall|i: int| 0 <= i < n implies records.subrange(
        SLOT_LEN * i,
        SLOT_LEN * i + SLOT_LEN,
    ) == slot_bytes(#[trigger] slots[i]) by {
        let b = body.subrange(6 + SLOT_LEN * i, 6 + SLOT_LEN * i + SLOT_LEN);
        law_slot_encoding_is_canonical(b);
        assert(records.subrange(SLOT_LEN * i, SLOT_LEN * i + SLOT_LEN) =~= b);
    }
    lemma_slots_bytes_unique(slots, records);
}

/// Law: bytes that are read as a table, with nothing behind it, are the
/// encoding of that table.
pub proof fn law_table_encoding_is_canonical(data: Seq<u8>, header_salt: Seq<u8>, t: TableModel)
    requires
        parsed_table(data, header_salt) == Ok::<TableModel, AegisError>(t),
        data.len() == 6 + SLOT_LEN * t.slots.len() + 32 + MAC_LEN,
    ensures
        table_bytes(t) == data,
{
    let body = data.subrange(0, data.len() - MAC_LEN);
    let n = t.slots.len();
    lemma_records_are_canonical(body, n);
    assert(table_body(t) == body) by {
        assert(body =~= body.subrange(0, 4) + seq![body[4], body[5]] + body.subrange(
            6,
            6 + SLOT_LEN * n,
        ) + t.verifier);
    }
    assert(data =~= body + data.subrange(data.len() - MAC_LEN, data.len() as int));
}

/// Law: a table whose mac was changed, in any of its bytes, is refused.
pub proof fn law_changed_mac_is_refused(data: Seq<u8>, changed: Seq<u8>, header_salt: Seq<u8>)
    requires
        parsed_table(data, header_salt) is Ok,
        changed.len() == data.len(),
        changed.subrange(0, data.len() - MAC_LEN) == data.subrange(0, data.len() - MAC_LEN),
        changed != data,
    ensures
        parsed_table(changed, header_salt) == Err::<TableModel, AegisError>(
            AegisError::HeaderIntegrity,
        ),
{
    let split = data.len() - MAC_LEN;
    let end = data.len() as int;
    if changed.subrange(split, end) == data.subrange(split, end) {
        assert(changed =~= changed.subrange(0, split) + changed.subrange(split, end));
        assert(data =~= data.subrange(0, split) + data.subrange(split, end));
    }
}

/// Law: what is accepted as a table ends in the keyed hash of all that stands
/// before it.
pub proof fn law_accepted_tables_carry_their_mac(data: Seq<u8>, header_salt: Seq<u8>)
    requires
        parsed_table(data, header_salt) is Ok,
    ensures
        data == data.subrange(0, data.len() - MAC_LEN) + blake3_keyed_hash(
            header_salt,
            data.subrange(0, data.len() - MAC_LEN),
        )@,
{
    assert(data =~= data.subrange(0, data.len() - MAC_LEN) + data.subrange(
        data.len() - MAC_LEN,
        data.len() as int,
    ));
}

/// Law: tables that differ in anything the mac covers (a lowered cost, say)
/// differ in the bytes that it covers.
pub proof fn law_changed_table_changes_the_body(t: TableModel, changed: TableModel)
    requires
        table_shape(t),
        table_shape(changed),
        t.slots.len() <= 255,
        changed.slots.len() <= 255,
        t.header_salt == changed.header_salt,
        t != changed,
    ensures
        table_body(t) != table_body(changed),
{
    law_table_round_trip(t);
    law_table_round_trip(changed);
}

/// Law: where a body was changed and the old mac is accepted for it, the keyed
/// hash has a collision.
pub proof fn law_unnoticed_change_is_a_collision(
    body: Seq<u8>,
    changed: Seq<u8>,
    mac: Seq<u8>,
    header_salt: Seq<u8>,
)
    requires
        mac.len() == MAC_LEN,
        parsed_table(body + mac, header_salt) is Ok,
        parsed_table(changed + mac, header_salt) is Ok,
    ensures
        blake3_keyed_hash(header_salt, body)@ == blake3_keyed_hash(header_salt, changed)@,
{
    let data = body + mac;
    let other = changed + mac;
    assert(data.subrange(0, data.len() - MAC_LEN) =~= body);
    assert(other.subrange(0, other.len() - MAC_LEN) =~= changed);
    assert(data.subrange(data.len() - MAC_LEN, data.len() as int) =~= mac);
    assert(other.subrange(other.len() - MAC_LEN, other.len() as int) =~= mac);
}

/// Appends the encoding of a slot.
pub(super) fn write_slot(out: &mut Vec<u8>, s: &KeySlot)
    ensures
        final(out)@ == old(out)@ + slot_bytes(s@),
{
    append(out, &s.slot_id);
    out.push(s.kdf_id);
    append(out, &u32_to_le(s.m_cost));
    append(out, &u32_to_le(s.t_cost));
    append(out, &s.salt);
    append(out, &s.nonce);
    append(out, &s.ct);
    out.push(s.flags);
    append(out, &u64_to_le(s.created_at));
    reveal(slot_bytes);
    assert(out@ =~= old(out)@ + slot_bytes(s@));
}

/// Takes `n` bytes of `buf` from position `p`, and moves `p` behind them.
pub(super) fn slice_at<'a>(buf: &'a [u8], p: &mut usize, n: usize) -> (result: Result<&'a [u8]>)
    ensures
        match result {
            Ok(s) => {
                &&& *old(p) + n <= buf@.len()
                &&& s@ == buf@.subrange(*old(p) as int, *old(p) + n)
                &&& *final(p) == *old(p) + n
            },
            Err(e) => {
                &&& *old(p) + n > buf@.len()
                &&& e is Serialization
                &&& *final(p) == *old(p)
            },
        },
{
    let start: usize = *p;
    if start > buf.len() || n > buf.len() - start {
        return Err(AegisError::Serialization);
    }
    *p = start + n;
    Ok(&buf[start..start + n])
}

/// Takes one byte of `buf` from position `p`, and moves `p` behind it.
pub(super) fn byte_at(buf: &[u8], p: &mut usize) -> (result: Result<u8>)
    ensures
        match result {
            Ok(b) => {
                &&& *old(p) < buf@.len()
                &&& b == buf@[*old(p) as int]
                &&& *final(p) == *old(p) + 1
            },
            Err(e) => {
                &&& *old(p) >= buf@.len()
                &&& e is Serialization
                &&& *final(p) == *old(p)
            },
        },
{
    if *p >= buf.len() {
        return Err(AegisError::Serialization);
    }
    let b: u8 = buf[*p];
    *p = *p + 1;
    Ok(b)
}

/// Reads the slot at position `p`, and moves `p` behind it.
pub(super) fn read_slot(buf: &[u8], p: &mut usize) -> (result: Result<KeySlot>)
    ensures
        match result {
            Ok(s) => {
                &&& *old(p) + SLOT_LEN <= buf@.len()
                &&& s@ == slot_from_bytes(buf@.subrange(*old(p) as int, *old(p) + SLOT_LEN))
                &&& *final(p) == *old(p) + SLOT_LEN
            },
            Err(e) => *old(p) + SLOT_LEN > buf@.len() && e is Serialization,
        },
{
    reveal(slot_from_bytes);
    let ghost b = buf@.subrange(*p as int, *p + SLOT_LEN);
    let ghost start = *p as int;
    let slot_id: [u8; 16] = array_from(slice_at(buf, p, 16)?);
    let kdf_id: u8 = byte_at(buf, p)?;
    let m_cost: u32 = u32_from_le(slice_at(buf, p, 4)?);
    let t_cost: u32 = u32_from_le(slice_at(buf, p, 4)?);
    let salt: [u8; 16] = array_from(slice_at(buf, p, 16)?);
    let nonce: [u8; NONCE_LEN] = array_from(slice_at(buf, p, NONCE_LEN)?);
    let ct: [u8; CT_LEN] = array_from(slice_at(buf, p, CT_LEN)?);
    let flags: u8 = byte_at(buf, p)?;
    let created_at: u64 = u64_from_le(slice_at(buf, p, 8)?);
    assert(b.subrange(0, 16) =~= buf@.subrange(start, start + 16));
    assert(b.subrange(17, 21) =~= buf@.subrange(start + 17, start + 21));
    assert(b.subrange(21, 25) =~= buf@.subrange(start + 21, start + 25));
    assert(b.subrange(25, 41) =~= buf@.subrange(start + 25, start + 41));
    assert(b.subrange(41, 53) =~= buf@.subrange(start + 41, start + 53));
    assert(b.subrange(53, 101) =~= buf@.subrange(start + 53, start + 101));
    assert(b.subrange(102, 110) =~= buf@.subrange(start + 102, start + 110));
    Ok(KeySlot { slot_id, kdf_id, m_cost, t_cost, salt, nonce, ct, flags, created_at })
}

/// Law: where each field of a slot stands in its encoding.
pub proof fn law_slot_layout(s: SlotModel)
    requires
        slot_shape(s),
    ensures
        ({
            let b = slot_bytes(s);
            &&& b.len() == 110
            &&& b.subrange(0, 16) == s.slot_id
            &&& b[16] == s.kdf_id
            &&& s.m_cost == b[17] + 0x100 * b[18] + 0x1_0000 * b[19] + 0x100_0000 * b[20]
            &&& s.t_cost == b[21] + 0x100 * b[22] + 0x1_0000 * b[23] + 0x100_0000 * b[24]
            &&& b.subrange(25, 41) == s.salt
            &&& b.subrange(41, 53) == s.nonce
            &&& b.subrange(53, 101) == s.ct
            &&& b[101] == s.flags
            &&& s.created_at == b[102] + 0x100 * b[103] + 0x1_0000 * b[104] + 0x100_0000 * b[105]
                + 0x1_0000_0000 * (b[106] + 0x100 * b[107] + 0x1_0000 * b[108] + 0x100_0000
                * b[109])
        }),
{
    reveal(slot_bytes);
    let b = slot_bytes(s);
    law_le32_digits(s.m_cost);
    law_le32_digits(s.t_cost);
    law_le64_digits(s.created_at);
    assert(b.subrange(0, 16) =~= s.slot_id);
    assert(b.subrange(17, 21) =~= le32(s.m_cost));
    assert(b.subrange(21, 25) =~= le32(s.t_cost));
    assert(b.subrange(25, 41) =~= s.salt);
    assert(b.subrange(41, 53) =~= s.nonce);
    assert(b.subrange(53, 101) =~= s.ct);
    assert(b.subrange(102, 110) =~= le64(s.created_at));
    assert(forall|i: int| 0 <= i < 4 ==> b[17 + i] == #[trigger] b.subrange(17, 21)[i]);
    assert(forall|i: int| 0 <= i < 4 ==> b[21 + i] == #[trigger] b.subrange(21, 25)[i]);
    assert(forall|i: int| 0 <= i < 8 ==> b[102 + i] == #[trigger] b.subrange(102, 110)[i]);
    let m = b.subrange(17, 21);
    assert(m[0] == b[17] && m[1] == b[18] && m[2] == b[19] && m[3] == b[20]);
    let t = b.subrange(21, 25);
    assert(t[0] == b[21] && t[1] == b[22] && t[2] == b[23] && t[3] == b[24]);
    let c = b.subrange(102, 110);
    assert(c[0] == b[102] && c[1] == b[103] && c[2] == b[104] && c[3] == b[105]);
    assert(c[4] == b[106] && c[5] == b[107] && c[6] == b[108] && c[7] == b[109]);
}

/// Law: where each part of a table stands in its encoding: the magic bytes
/// `SOTK`, the version, the slot count, the slots one after the other, the
/// verifier, and the keyed hash, under the header salt, of all that stands
/// before it.
pub proof fn law_table_layout(t: TableModel)
    requires
        table_shape(t),
    ensures
        ({
            let b = table_bytes(t);
            let end = 6 + 110 * t.slots.len() as int;
            &&& b.len() == end + 64
            &&& b[0] == 0x53
            &&& b[1] == 0x4f
            &&& b[2] == 0x54
            &&& b[3] == 0x4b
            &&& b[4] == 1
            &&& b[5] == t.slots.len() % 256
            &&& b.subrange(end, end + 32) == t.verifier
            &&& b.subrange(end + 32, end + 64) == blake3_keyed_hash(
                t.header_salt,
                b.subrange(0, end + 32),
            )@
        }),
        forall|i: int|
            0 <= i < t.slots.len() ==> table_bytes(t).subrange(6 + 110 * i, 116 + 110 * i)
                == slot_bytes(#[trigger] t.slots[i]),
{
    let n = t.slots.len() as int;
    let end = 6 + 110 * n;
    let body = table_body(t);
    let b = table_bytes(t);
    lemma_slots_bytes(t.slots);
    assert(b.subrange(0, end + 32) =~= body);
    assert(b.subrange(end, end + 32) =~= t.verifier);
    assert(b.subrange(end + 32, end + 64) =~= blake3_keyed_hash(t.header_salt, body)@);
    assert forall|i: int| 0 <= i < n implies b.subrange(6 + 110 * i, 116 + 110 * i) == slot_bytes(
        #[trigger] t.slots[i],
    ) by {
        assert(b.subrange(6 + 110 * i, 116 + 110 * i) =~= slots_bytes(t.slots).subrange(
            SLOT_LEN * i,
            SLOT_LEN * i + SLOT_LEN,
        ));
    }
}

/// Law: the mac that decides is the keyed hash, under the header salt, of all
/// bytes before it.
pub proof fn law_tables_are_checked_by_their_keyed_hash(data: Seq<u8>, header_salt: Seq<u8>)
    ensures
        parsed_table(data, header_salt) == parsed_with_mac(
            data,
            header_salt,
            blake3_keyed_hash(header_salt, data.subrange(0, data.len() - 32))@,
        ),
{
}

/// Law: which bytes are refused as a table, and with which error.
pub proof fn law_refused_tables(data: Seq<u8>, header_salt: Seq<u8>, mac: Seq<u8>)
    ensures
        data.len() < 37 ==> parsed_with_mac(data, header_salt, mac) == Err::<
            TableModel,
            AegisError,
        >(AegisError::Serialization),
        data.len() >= 37 && data.subrange(data.len() - 32, data.len() as int) != mac
            ==> parsed_with_mac(data, header_salt, mac) == Err::<TableModel, AegisError>(
            AegisError::HeaderIntegrity,
        ),
        data.len() >= 37 && data.subrange(data.len() - 32, data.len() as int) == mac && (data[0]
            != 0x53 || data[1] != 0x4f || data[2] != 0x54 || data[3] != 0x4b || data[4] != 1
            || data.len() < 38 || data.len() < 70 + 110 * data[5]) ==> parsed_with_mac(
            data,
            header_salt,
            mac,
        ) == Err::<TableModel, AegisError>(AegisError::Serialization),
{
    if data.len() >= 37 {
        let body = data.subrange(0, data.len() - 32);
        let magic = body.subrange(0, 4);
        assert(magic[0] == data[0] && magic[1] == data[1] && magic[2] == data[2] && magic[3]
            == data[3]);
        assert(body[4] == data[4]);
        if data.len() >= 38 {
            assert(body[5] == data[5]);
        }
    }
}

/// Law: which bytes are read as a table, and what is read: as many slots as the
/// count says, each from its own 110 bytes, and the verifier behind them.
pub proof fn law_read_tables(data: Seq<u8>, header_salt: Seq<u8>, mac: Seq<u8>)
    requires
        data.len() >= 38,
        data.subrange(data.len() - 32, data.len() as int) == mac,
        data[0] == 0x53,
        data[1] == 0x4f,
        data[2] == 0x54,
        data[3] == 0x4b,
        data[4] == 1,
        data.len() >= 70 + 110 * data[5],
    ensures
        parsed_with_mac(data, header_salt, mac) matches Ok(t) && {
            &&& t.header_salt == header_salt
            &&& t.slots.len() == data[5]
            &&& t.verifier == data.subrange(6 + 110 * data[5], 38 + 110 * data[5])
            &&& forall|i: int|
                0 <= i < data[5] ==> slot_bytes(#[trigger] t.slots[i]) == data.subrange(
                    6 + 110 * i,
                    116 + 110 * i,
                ) && slot_shape(t.slots[i])
        },
{
    let body = data.subrange(0, data.len() - 32);
    assert(body.subrange(0, 4) =~= HEADER_MAGIC@);
    assert(body[5] == data[5]);
    assert(body.subrange(6 + 110 * data[5], 38 + 110 * data[5]) =~= data.subrange(
        6 + 110 * data[5],
        38 + 110 * data[5],
    ));
    let slots = parsed_slots(body, data[5] as nat);
    assert forall|i: int| 0 <= i < data[5] implies slot_bytes(#[trigger] slots[i])
        == data.subrange(6 + 110 * i, 116 + 110 * i) && slot_shape(slots[i]) by {
        let b = body.subrange(6 + 110 * i, 116 + 110 * i);
        law_slot_encoding_is_canonical(b);
        assert(b =~= data.subrange(6 + 110 * i, 116 + 110 * i));
    }
}

} // verus!

//! Key slots and slot tables.

use soteria_aegis::debug::DebugValue;
use soteria_aegis::slots::{
    check_volume, seconds_or_zero, volume_verifier, CT_LEN, MAC_LEN, SLOT_LEN, VERIFIER_KEY,
};
use soteria_aegis::{
    AegisError, AegisKey, KeySlot, KeySlotTable, VolumeKeyRotation, HEADER_MAGIC, HEADER_VERSION,
    KDF_ID_ARGON2ID, MASTER_LEN, MAX_SLOTS, NONCE_LEN, TAG_LEN,
};

fn fast_slot(master: &[u8; MASTER_LEN], pw: &[u8]) -> KeySlot {
    KeySlot::create(master, pw, 32, 1).unwrap()
}

fn table_of(slots: Vec<KeySlot>) -> KeySlotTable {
    KeySlotTable { header_salt: [0x31u8; 32], slots, verifier: [0x32u8; 32] }
}

/// A body with its mac.
fn with_mac(body: &[u8], salt: &[u8; 32]) -> Vec<u8> {
    let mut data = body.to_vec();
    data.extend_from_slice(blake3::keyed_hash(salt, body).as_bytes());
    data
}

#[test]
fn round_trip_unseal() {
    let master = [0x55u8; MASTER_LEN];
    let slot = fast_slot(&master, b"hunter2");
    let recovered = slot.unseal(b"hunter2").unwrap();
    assert!(recovered.ct_eq(&AegisKey::new32(&master)));
}

#[test]
fn wrong_passphrase_fails() {
    let master = [0x66u8; MASTER_LEN];
    let slot = fast_slot(&master, b"hunter2");
    assert!(slot.unseal(b"wrong").is_err());
}

#[test]
fn slot_isolation() {
    let master = [0x77u8; MASTER_LEN];
    let s1 = fast_slot(&master, b"pass-a");
    let s2 = fast_slot(&master, b"pass-b");
    assert!(s1.unseal(b"pass-b").is_err());
    assert!(s2.unseal(b"pass-a").is_err());
    assert!(s1.unseal(b"pass-a").unwrap().ct_eq(&s2.unseal(b"pass-b").unwrap()));
}

#[test]
fn table_multi_user() {
    let master = [0x88u8; MASTER_LEN];
    let mut table = KeySlotTable::new_initial(&master, b"alice-pw").unwrap();
    assert_eq!(table.enabled_count(), 1);
    let bob = table.add_slot(&master, b"bob-pw").unwrap();
    assert_eq!(table.enabled_count(), 2);

    let (idx, m) = table.unseal_with(b"bob-pw").unwrap();
    assert_eq!(idx, bob);
    assert!(m.ct_eq(&AegisKey::new32(&master)));

    let (idx, m) = table.unseal_with(b"alice-pw").unwrap();
    assert_eq!(idx, 0);
    assert!(m.ct_eq(&AegisKey::new32(&master)));
}

#[test]
fn revocation_blocks_access() {
    let master = [0x99u8; MASTER_LEN];
    let mut table = KeySlotTable::new_initial(&master, b"alice-pw").unwrap();
    let bob = table.add_slot(&master, b"bob-pw").unwrap();
    assert!(table.revoke_slot(bob).is_ok());
    assert!(table.unseal_with(b"bob-pw").is_err());
    assert!(table.unseal_with(b"alice-pw").is_ok());
}

#[test]
fn cannot_revoke_last_slot() {
    let master = [0xAAu8; MASTER_LEN];
    let mut table = KeySlotTable::new_initial(&master, b"only-pw").unwrap();
    assert!(table.revoke_slot(0).is_err());
}

#[test]
fn table_serde_round_trip() {
    let master = [0xBBu8; MASTER_LEN];
    let table = KeySlotTable::new_initial(&master, b"pw").unwrap();
    let bytes = table.to_bytes();
    let salt = table.header_salt;
    let parsed = KeySlotTable::from_bytes(&bytes, &salt).unwrap();
    assert_eq!(parsed.slots.len(), table.slots.len());
    assert_eq!(parsed.header_salt, table.header_salt);
}

#[test]
fn tampered_table_fails_hmac() {
    let master = [0xCCu8; MASTER_LEN];
    let table = KeySlotTable::new_initial(&master, b"pw").unwrap();
    let mut bytes = table.to_bytes();
    let last = bytes.len() - 1;
    bytes[last] ^= 0x01;
    let wrong_salt = [0u8; 32];
    assert!(KeySlotTable::from_bytes(&bytes, &wrong_salt).is_err());
}

#[test]
fn rotation_changes_master() {
    let old = [0xDDu8; MASTER_LEN];
    let new = VolumeKeyRotation::rotate();
    assert!(!new.ct_eq(&AegisKey::new32(&old)));
}

#[test]
fn constants_of_the_format() {
    assert_eq!(HEADER_MAGIC, b"SOTK");
    assert_eq!(HEADER_VERSION, 1);
    assert_eq!(KDF_ID_ARGON2ID, 1);
    assert_eq!(MAX_SLOTS, 16);
    assert_eq!(NONCE_LEN, 12);
    assert_eq!(TAG_LEN, 16);
    assert_eq!(CT_LEN, 48);
    assert_eq!(SLOT_LEN, 110);
    assert_eq!(VERIFIER_KEY, b"soteria-aegis-volume-verifier-v1");
}

#[test]
fn new_slots_are_enabled_and_dated() {
    let slot = fast_slot(&[1u8; MASTER_LEN], b"pw");
    assert!(slot.is_enabled());
    assert_eq!(slot.flags, 1);
    assert_eq!(slot.kdf_id, 1);
    assert_eq!((slot.m_cost, slot.t_cost), (32, 1));
    assert!(slot.created_at > 1_600_000_000);
    assert_eq!(seconds_or_zero(Some(7)), 7);
    assert_eq!(seconds_or_zero(None), 0);
}

#[test]
fn slot_with_given_inputs_is_deterministic() {
    let make = || {
        KeySlot::create_with(
            &[1u8; MASTER_LEN],
            b"pw",
            32,
            1,
            [2u8; 16],
            [3u8; NONCE_LEN],
            [4u8; 16],
            99,
        )
        .unwrap()
    };
    let (a, b) = (make(), make());
    assert_eq!(a.ct, b.ct);
    assert_eq!((a.salt, a.nonce, a.slot_id, a.created_at), ([2u8; 16], [3u8; 12], [4u8; 16], 99));
    // The sealed key is AES-256-GCM under the Argon2id key, bound to the magic.
    let key = soteria_aegis::argon2id_root(b"pw", &[2u8; 16], 32, 1).unwrap();
    let mut raw = [0u8; 32];
    raw.copy_from_slice(key.expose());
    let cipher = soteria_aegis::AeadCipher::new(soteria_aegis::AegisAlgoTag::Aes256Gcm, &raw);
    assert_eq!(cipher.open(&a.nonce, &a.ct, b"SOTK").unwrap(), [1u8; MASTER_LEN]);
}

#[test]
fn slot_errors() {
    let master = [1u8; MASTER_LEN];
    assert!(matches!(KeySlot::create(&master, b"pw", 7, 1), Err(AegisError::Argon2)));
    assert!(matches!(KeySlot::create(&master, b"pw", 8, 0), Err(AegisError::Argon2)));
    let mut slot = fast_slot(&master, b"pw");
    assert!(matches!(slot.unseal(b"px"), Err(AegisError::SlotUnseal)));
    slot.ct[0] ^= 1;
    assert!(matches!(slot.unseal(b"pw"), Err(AegisError::SlotUnseal)));
    slot.m_cost = 0;
    assert!(matches!(slot.unseal(b"pw"), Err(AegisError::Argon2)));
}

#[test]
fn recovered_keys_have_the_master_length() {
    assert_eq!(KeySlot::recovered(Ok(vec![9u8; 32])).unwrap().expose(), &[9u8; 32]);
    assert!(matches!(KeySlot::recovered(Ok(vec![9u8; 31])), Err(AegisError::SlotUnseal)));
    assert!(matches!(KeySlot::recovered(Ok(vec![])), Err(AegisError::SlotUnseal)));
    assert!(matches!(KeySlot::recovered(Err(AegisError::AeadOpen)), Err(AegisError::SlotUnseal)));
}

#[test]
fn only_the_lowest_flag_bit_enables() {
    let mut slot = fast_slot(&[1u8; MASTER_LEN], b"pw");
    slot.flags = 0xfe;
    assert!(!slot.is_enabled());
    slot.flags = 0xff;
    assert!(slot.is_enabled());
    slot.flags = 0;
    assert!(!slot.is_enabled());
}

#[test]
fn verifier_is_a_keyed_hash() {
    let master = [0x21u8; MASTER_LEN];
    let expected = blake3::keyed_hash(b"soteria-aegis-volume-verifier-v1", &master);
    assert_eq!(volume_verifier(&master), *expected.as_bytes());
    assert!(check_volume(&volume_verifier(&master), expected.as_bytes()).is_ok());
    let mut other = *expected.as_bytes();
    other[31] ^= 1;
    assert!(matches!(check_volume(expected.as_bytes(), &other), Err(AegisError::VolumeMismatch)));
    let table = KeySlotTable::new_initial(&master, b"pw").unwrap();
    assert_eq!(table.verifier, *expected.as_bytes());
    assert_eq!((table.slots[0].m_cost, table.slots[0].t_cost), (64, 3));
}

#[test]
fn table_takes_sixteen_slots() {
    let master = [2u8; MASTER_LEN];
    let mut table = KeySlotTable::new_initial(&master, b"user-0").unwrap();
    for i in 1..MAX_SLOTS {
        assert_eq!(table.add_slot(&master, format!("user-{i}").as_bytes()).unwrap(), i);
    }
    assert!(matches!(
        table.add_slot(&master, b"one too many"),
        Err(AegisError::SlotTableFull(16))
    ));
    assert_eq!(table.slots.len(), 16);
    assert_eq!(table.enabled_count(), 16);
    let (idx, m) = table.unseal_with(b"user-15").unwrap();
    assert_eq!(idx, 15);
    assert_eq!(m.expose(), &master);
}

#[test]
fn revocation_wipes_the_slot_and_spares_the_others() {
    let master = [3u8; MASTER_LEN];
    let mut table = KeySlotTable::new_initial(&master, b"a").unwrap();
    table.add_slot(&master, b"b").unwrap();
    table.slots[1].flags = 0xff;
    let before = table.clone();
    table.revoke_slot(1).unwrap();
    assert_eq!(table.slots[1].flags, 0xfe);
    assert_eq!(table.slots[1].ct, [0u8; CT_LEN]);
    assert_eq!(table.slots[1].salt, before.slots[1].salt);
    assert_eq!(table.slots[0].ct, before.slots[0].ct);
    assert_eq!(table.enabled_count(), 1);
    // Enabling the flag again does not bring the key back.
    table.slots[1].flags = 1;
    assert!(matches!(table.slots[1].unseal(b"b"), Err(AegisError::SlotUnseal)));
}

#[test]
fn revocation_errors() {
    let master = [4u8; MASTER_LEN];
    let mut table = KeySlotTable::new_initial(&master, b"a").unwrap();
    assert!(matches!(table.revoke_slot(1), Err(AegisError::SlotUnseal)));
    assert!(matches!(table.revoke_slot(0), Err(AegisError::LastSlotRevocation)));
    table.add_slot(&master, b"b").unwrap();
    table.revoke_slot(0).unwrap();
    // A revoked slot stays revoked; the last enabled one stays.
    table.revoke_slot(0).unwrap();
    assert!(matches!(table.revoke_slot(1), Err(AegisError::LastSlotRevocation)));
    assert_eq!(table.enabled_count(), 1);
    assert!(matches!(table.unseal_with(b"a"), Err(AegisError::NoSlotUnsealed)));
    assert_eq!(table.unseal_with(b"b").unwrap().0, 1);
}

#[test]
fn first_matching_slot_is_used() {
    let master = [5u8; MASTER_LEN];
    let mut table = table_of(vec![
        fast_slot(&master, b"other"),
        fast_slot(&master, b"same"),
        fast_slot(&[6u8; MASTER_LEN], b"same"),
    ]);
    let (idx, m) = table.unseal_with(b"same").unwrap();
    assert_eq!((idx, m.expose()), (1, &master[..]));
    table.revoke_slot(1).unwrap();
    let (idx, m) = table.unseal_with(b"same").unwrap();
    assert_eq!((idx, m.expose()), (2, &[6u8; MASTER_LEN][..]));
    assert!(matches!(table_of(vec![]).unseal_with(b"x"), Err(AegisError::NoSlotUnsealed)));
}

#[test]
fn encoding_has_the_documented_layout() {
    let slot = KeySlot {
        slot_id: [0xa1; 16],
        kdf_id: 1,
        m_cost: 0x0403_0201,
        t_cost: 0x0807_0605,
        salt: [0xa2; 16],
        nonce: [0xa3; 12],
        ct: [0xa4; 48],
        flags: 0x81,
        created_at: 0x1716_1514_1312_1110,
    };
    let table = table_of(vec![slot]);
    let mut body = Vec::new();
    body.extend_from_slice(b"SOTK\x01\x01");
    body.extend_from_slice(&[0xa1; 16]);
    body.push(1);
    body.extend_from_slice(&[1, 2, 3, 4, 5, 6, 7, 8]);
    body.extend_from_slice(&[0xa2; 16]);
    body.extend_from_slice(&[0xa3; 12]);
    body.extend_from_slice(&[0xa4; 48]);
    body.push(0x81);
    body.extend_from_slice(&[0x10, 0x11, 0x12, 0x13, 0x14, 0x15, 0x16, 0x17]);
    body.extend_from_slice(&[0x32; 32]);
    assert_eq!(table.body_bytes(), body);
    assert_eq!(table.to_bytes(), with_mac(&body, &[0x31; 32]));
}

#[test]
fn every_field_is_read_back() {
    let mut slots = Vec::new();
    for i in 0..3u8 {
        slots.push(KeySlot {
            slot_id: [i; 16],
            kdf_id: i,
            m_cost: u32::MAX - i as u32,
            t_cost: 0x0102_0304 + i as u32,
            salt: [i + 10; 16],
            nonce: [i + 20; 12],
            ct: [i + 30; 48],
            flags: i,
            created_at: u64::MAX - i as u64,
        });
    }
    let table = table_of(slots);
    let parsed = KeySlotTable::from_bytes(&table.to_bytes(), &table.header_salt).unwrap();
    assert_eq!(parsed.verifier, table.verifier);
    assert_eq!(parsed.header_salt, table.header_salt);
    assert_eq!(parsed.slots.len(), 3);
    for (a, b) in parsed.slots.iter().zip(table.slots.iter()) {
        assert_eq!((a.slot_id, a.kdf_id, a.m_cost), (b.slot_id, b.kdf_id, b.m_cost));
        assert_eq!((a.t_cost, a.salt, a.nonce), (b.t_cost, b.salt, b.nonce));
        assert_eq!((a.ct, a.flags, a.created_at), (b.ct, b.flags, b.created_at));
    }
    assert_eq!(parsed.to_bytes(), table.to_bytes());
}

#[test]
fn tables_of_up_to_255_slots_are_read_back() {
    let slot = fast_slot(&[1u8; MASTER_LEN], b"pw");
    for n in [0usize, 1, 17, 255] {
        let table = table_of(vec![slot.clone(); n]);
        let parsed = KeySlotTable::from_bytes(&table.to_bytes(), &table.header_salt).unwrap();
        assert_eq!(parsed.slots.len(), n);
    }
    // The slot count is one byte: it wraps at 256.
    let table = table_of(vec![slot; 256]);
    assert_eq!(table.body_bytes()[5], 0);
    let parsed = KeySlotTable::from_bytes(&table.to_bytes(), &table.header_salt).unwrap();
    assert_eq!(parsed.slots.len(), 0);
}

#[test]
fn every_changed_byte_is_noticed() {
    let table = table_of(vec![fast_slot(&[1u8; MASTER_LEN], b"pw")]);
    let bytes = table.to_bytes();
    for i in 0..bytes.len() {
        let mut changed = bytes.clone();
        changed[i] ^= 0x04;
        assert!(matches!(
            KeySlotTable::from_bytes(&changed, &table.header_salt),
            Err(AegisError::HeaderIntegrity)
        ));
    }
    assert!(matches!(
        KeySlotTable::from_bytes(&bytes, &[0u8; 32]),
        Err(AegisError::HeaderIntegrity)
    ));
}

#[test]
fn malformed_tables_are_refused() {
    let salt = [0x31u8; 32];
    for len in 0..5 + MAC_LEN {
        assert!(matches!(
            KeySlotTable::from_bytes(&vec![0u8; len], &salt),
            Err(AegisError::Serialization)
        ));
    }
    let body = table_of(vec![fast_slot(&[1u8; MASTER_LEN], b"pw")]).body_bytes();
    // An authentic body that was cut short anywhere is refused.
    for len in 5..body.len() {
        assert!(matches!(
            KeySlotTable::from_bytes(&with_mac(&body[..len], &salt), &salt),
            Err(AegisError::Serialization)
        ));
    }
    let mut wrong_magic = body.clone();
    wrong_magic[0] = b'T';
    assert!(matches!(
        KeySlotTable::from_bytes(&with_mac(&wrong_magic, &salt), &salt),
        Err(AegisError::Serialization)
    ));
    let mut wrong_version = body.clone();
    wrong_version[4] = 2;
    assert!(matches!(
        KeySlotTable::from_bytes(&with_mac(&wrong_version, &salt), &salt),
        Err(AegisError::Serialization)
    ));
    let mut too_many = body.clone();
    too_many[5] = 2;
    assert!(matches!(
        KeySlotTable::from_bytes(&with_mac(&too_many, &salt), &salt),
        Err(AegisError::Serialization)
    ));
    // Authentic bytes behind the verifier are passed over.
    let mut longer = body.clone();
    longer.extend_from_slice(b"trailer");
    assert_eq!(KeySlotTable::from_bytes(&with_mac(&longer, &salt), &salt).unwrap().slots.len(), 1);
}

#[test]
fn reading_goes_by_the_given_mac() {
    let table = table_of(vec![]);
    let mut data = table.body_bytes();
    data.extend_from_slice(&[0x77u8; 32]);
    let salt = table.header_salt;
    let parsed = KeySlotTable::from_bytes_with_mac(&data, &salt, &[0x77u8; 32]).unwrap();
    assert_eq!(parsed.verifier, table.verifier);
    assert!(matches!(
        KeySlotTable::from_bytes_with_mac(&data, &salt, &[0x78u8; 32]),
        Err(AegisError::HeaderIntegrity)
    ));
}

#[test]
fn debug_of_slots_and_tables_is_redacted() {
    let mut slot = fast_slot(&[1u8; MASTER_LEN], b"pw");
    assert_eq!(
        format!("{:?}", slot),
        "KeySlot { slot_id: \"<redacted>\", kdf_id: 1, m_cost: 32, t_cost: 1, enabled: true, .. }"
    );
    slot.m_cost = 4_294_967_295;
    slot.flags = 0;
    assert_eq!(
        format!("{:?}", slot),
        "KeySlot { slot_id: \"<redacted>\", kdf_id: 1, m_cost: 4294967295, t_cost: 1, \
         enabled: false, .. }"
    );
    let table = table_of(vec![slot.clone(); 10]);
    assert_eq!(
        format!("{:?}", table),
        "KeySlotTable { header_salt: \"<redacted>\", verifier: \"<redacted>\", slot_count: 10, \
         enabled_count: 0, .. }"
    );
}

#[test]
fn debug_follows_the_flags_of_the_formatter() {
    let mut slot = fast_slot(&[1u8; MASTER_LEN], b"pw");
    slot.m_cost = 255;
    assert_eq!(
        format!("{:#?}", slot),
        "KeySlot {\n    slot_id: \"<redacted>\",\n    kdf_id: 1,\n    m_cost: 255,\n    \
         t_cost: 1,\n    enabled: true,\n    ..\n}"
    );
    assert_eq!(
        format!("{:x?}", slot),
        "KeySlot { slot_id: \"<redacted>\", kdf_id: 1, m_cost: ff, t_cost: 1, enabled: true, .. }"
    );
    assert_eq!(
        format!("{:#?}", table_of(vec![slot])),
        "KeySlotTable {\n    header_salt: \"<redacted>\",\n    verifier: \"<redacted>\",\n    \
         slot_count: 1,\n    enabled_count: 1,\n    ..\n}"
    );
}

#[test]
fn debug_shows_these_fields() {
    let slot = fast_slot(&[1u8; MASTER_LEN], b"pw");
    let fields = slot.debug_fields();
    let names: Vec<&str> = fields.iter().map(|f| f.name).collect();
    assert_eq!(names, ["slot_id", "kdf_id", "m_cost", "t_cost", "enabled"]);
    assert_eq!(fields[0].value, DebugValue::Redacted);
    assert_eq!(fields[2].value, DebugValue::Number(32));
    assert_eq!(fields[4].value, DebugValue::Truth(true));
    let fields = table_of(vec![slot]).debug_fields();
    let names: Vec<&str> = fields.iter().map(|f| f.name).collect();
    assert_eq!(names, ["header_salt", "verifier", "slot_count", "enabled_count"]);
    assert_eq!(fields[1].value, DebugValue::Redacted);
    assert_eq!(fields[3].value, DebugValue::Number(1));
}

#[test]
fn table_around_a_given_salt_and_slot() {
    let master = [0x41u8; MASTER_LEN];
    let slot = fast_slot(&master, b"pw");
    let table = KeySlotTable::with_slot([0x42u8; 32], slot.clone(), &master);
    assert_eq!(table.header_salt, [0x42u8; 32]);
    assert_eq!(table.slots.len(), 1);
    assert_eq!(table.slots[0].ct, slot.ct);
    assert_eq!(table.verifier, volume_verifier(&master));
}

#[test]
fn rotation_gives_fresh_keys_of_the_master_length() {
    let a = VolumeKeyRotation::rotate();
    let b = VolumeKeyRotation::rotate();
    assert_eq!(a.len(), MASTER_LEN);
    assert!(!a.ct_eq(&b));
}

//! Vaults.

use soteria_aegis::slots::volume_verifier;
use soteria_aegis::{
    argon2id_root, AegisAlgoTag, AegisError, AegisKey, AegisVault, Domain, KeyHierarchy, KeySlot,
    KeySlotTable, DEFAULT_ARGON2_ITERATIONS, DEFAULT_ARGON2_MEMORY_KIB, MASTER_LEN,
};

#[test]
fn vault_encrypt_decrypt_roundtrip() {
    let vault = AegisVault::unlock(b"pw", b"public-salt-01", 32 * 1024, 2).unwrap();
    let (nonce, ct) = vault
        .encrypt(Domain::Enc, b"hello aegis", b"blk:1", AegisAlgoTag::XChaCha20Poly1305)
        .unwrap();
    let pt = vault
        .decrypt(Domain::Enc, &nonce, &ct, b"blk:1", AegisAlgoTag::XChaCha20Poly1305)
        .unwrap();
    assert_eq!(pt, b"hello aegis");
    assert!(vault
        .decrypt(Domain::Enc, &nonce, &ct, b"blk:2", AegisAlgoTag::XChaCha20Poly1305)
        .is_err());
}

#[test]
fn vault_persist_and_reopen_via_slots() {
    let mut vault = AegisVault::unlock(b"master-pw", b"public-salt-02", 32 * 1024, 2).unwrap();
    vault.seal_slots(b"master-pw").unwrap();
    let bytes = vault.slots_to_bytes().unwrap();
    let salt = vault.slots_header_salt().unwrap();

    let mut reopened = AegisVault::unlock(b"master-pw", b"public-salt-02", 32 * 1024, 2).unwrap();
    reopened.open_from_slots(&bytes, &salt, b"master-pw").unwrap();
    assert!(reopened.master().ct_eq(vault.master()));

    let mut bad = AegisVault::unlock(b"master-pw", b"public-salt-02", 32 * 1024, 2).unwrap();
    assert!(bad.open_from_slots(&bytes, &salt, b"nope").is_err());
}

#[test]
fn vault_master_is_protected() {
    let vault = AegisVault::unlock(b"pw", b"public-salt-03", 32 * 1024, 2).unwrap();
    let dbg = format!("{:?}", vault.master());
    assert_eq!(dbg, "AegisKey(<redacted>)");
    assert!(!vault.domain(Domain::Enc).ct_eq(vault.domain(Domain::Auth)));
}

#[test]
fn vault_volume_verifier_detects_injection() {
    let mut vault = AegisVault::unlock(b"master-pw", b"public-salt-04", 32 * 1024, 2).unwrap();
    vault.seal_slots(b"master-pw").unwrap();
    let bytes = vault.slots_to_bytes().unwrap();
    let salt = vault.slots_header_salt().unwrap();

    // Reopen and confirm the verifier reports a proper injection.
    let mut reopened = AegisVault::unlock(b"master-pw", b"public-salt-04", 32 * 1024, 2).unwrap();
    reopened.open_from_slots(&bytes, &salt, b"master-pw").unwrap();
    assert!(reopened.verify_volume(), "decrypted master must match volume verifier");

    // A vault with no slot table cannot be verified.
    let bare = AegisVault::unlock(b"x", b"public-salt-04", 32 * 1024, 2).unwrap();
    assert!(!bare.verify_volume());
}

#[test]
fn default_costs() {
    assert_eq!(DEFAULT_ARGON2_MEMORY_KIB, 65536);
    assert_eq!(DEFAULT_ARGON2_ITERATIONS, 3);
}

#[test]
fn unlock_takes_the_argon2id_key_as_master() {
    let vault = AegisVault::unlock(b"pw", b"public-salt", 64, 1).unwrap();
    let key = argon2id_root(b"pw", b"public-salt", 64, 1).unwrap();
    assert!(vault.master().ct_eq(&key));
    assert!(matches!(AegisVault::unlock(b"pw", b"short", 64, 1), Err(AegisError::Argon2)));
    assert!(matches!(AegisVault::unlock(b"pw", b"public-salt", 4, 1), Err(AegisError::Argon2)));
}

#[test]
fn hierarchy_follows_the_master() {
    let vault = AegisVault::from_master_key([8u8; MASTER_LEN]);
    let h = KeyHierarchy::from_master(&[8u8; MASTER_LEN]).unwrap();
    for d in [Domain::Enc, Domain::Auth, Domain::Meta, Domain::Shard, Domain::Xts, Domain::Handle] {
        assert!(vault.domain(d).ct_eq(h.domain(d)));
        assert!(vault.hierarchy().domain(d).ct_eq(h.domain(d)));
    }
    assert_eq!(vault.master().expose(), &[8u8; MASTER_LEN]);
}

#[test]
fn domains_and_algorithms_do_not_mix() {
    let vault = AegisVault::from_master_key([8u8; MASTER_LEN]);
    for algo in [AegisAlgoTag::Aes256Gcm, AegisAlgoTag::XChaCha20Poly1305] {
        let (nonce, ct) = vault.encrypt(Domain::Meta, b"name", b"", algo).unwrap();
        assert_eq!(vault.decrypt(Domain::Meta, &nonce, &ct, b"", algo).unwrap(), b"name");
        assert!(matches!(
            vault.decrypt(Domain::Enc, &nonce, &ct, b"", algo),
            Err(AegisError::AeadOpen)
        ));
    }
    let (nonce, ct) = vault.encrypt(Domain::Meta, b"name", b"", AegisAlgoTag::Aes256Gcm).unwrap();
    assert!(matches!(
        vault.decrypt(Domain::Meta, &nonce, &ct, b"", AegisAlgoTag::XChaCha20Poly1305),
        Err(AegisError::AeadOpen)
    ));
}

#[test]
fn first_added_slot_makes_the_table() {
    let mut vault = AegisVault::from_master_key([1u8; MASTER_LEN]);
    assert!(vault.slots_to_bytes().is_none());
    assert!(vault.slots_header_salt().is_none());
    assert!(matches!(vault.revoke_slot(0), Err(AegisError::LastSlotRevocation)));
    assert_eq!(vault.add_slot(b"a").unwrap(), 0);
    assert_eq!(vault.add_slot(b"b").unwrap(), 1);
    assert!(vault.verify_volume());
}

#[test]
fn vault_takes_sixteen_slots() {
    let mut vault = AegisVault::from_master_key([1u8; MASTER_LEN]);
    for i in 0..16 {
        assert_eq!(vault.add_slot(b"same").unwrap(), i);
    }
    let before = vault.slots_to_bytes().unwrap();
    assert!(matches!(vault.add_slot(b"x"), Err(AegisError::SlotTableFull(16))));
    assert_eq!(vault.slots_to_bytes().unwrap(), before);
}

#[test]
fn every_user_reopens_until_revoked() {
    let mut vault = AegisVault::from_master_key([1u8; MASTER_LEN]);
    vault.seal_slots(b"a").unwrap();
    let b = vault.add_slot(b"b").unwrap();
    let salt = vault.slots_header_salt().unwrap();
    let bytes = vault.slots_to_bytes().unwrap();
    for pw in [&b"a"[..], b"b"] {
        let mut other = AegisVault::from_master_key([2u8; MASTER_LEN]);
        other.open_from_slots(&bytes, &salt, pw).unwrap();
        assert!(other.master().ct_eq(vault.master()));
        assert!(other.domain(Domain::Shard).ct_eq(vault.domain(Domain::Shard)));
        assert_eq!(other.slots_to_bytes().unwrap(), bytes);
    }
    vault.revoke_slot(b).unwrap();
    assert!(matches!(vault.revoke_slot(0), Err(AegisError::LastSlotRevocation)));
    assert!(matches!(vault.revoke_slot(9), Err(AegisError::SlotUnseal)));
    let bytes = vault.slots_to_bytes().unwrap();
    let mut other = AegisVault::from_master_key([2u8; MASTER_LEN]);
    assert!(matches!(
        other.open_from_slots(&bytes, &salt, b"b"),
        Err(AegisError::NoSlotUnsealed)
    ));
    other.open_from_slots(&bytes, &salt, b"a").unwrap();
}

#[test]
fn failed_reopening_leaves_the_vault() {
    let mut source = AegisVault::from_master_key([1u8; MASTER_LEN]);
    source.seal_slots(b"a").unwrap();
    let salt = source.slots_header_salt().unwrap();
    let bytes = source.slots_to_bytes().unwrap();
    let mut vault = AegisVault::from_master_key([2u8; MASTER_LEN]);
    vault.seal_slots(b"mine").unwrap();
    let mine = vault.slots_to_bytes().unwrap();

    let mut changed = bytes.clone();
    changed[10] ^= 1;
    assert!(matches!(
        vault.open_from_slots(&changed, &salt, b"a"),
        Err(AegisError::HeaderIntegrity)
    ));
    let mut changed = bytes.clone();
    let last = changed.len() - 1;
    changed[last] ^= 1;
    assert!(matches!(
        vault.open_from_slots(&changed, &salt, b"a"),
        Err(AegisError::HeaderIntegrity)
    ));
    assert!(matches!(
        vault.open_from_slots(&bytes[..20], &salt, b"a"),
        Err(AegisError::Serialization)
    ));
    assert!(matches!(
        vault.open_from_slots(&bytes, &salt, b"b"),
        Err(AegisError::NoSlotUnsealed)
    ));
    assert_eq!(vault.master().expose(), &[2u8; MASTER_LEN]);
    assert_eq!(vault.slots_to_bytes().unwrap(), mine);
}

#[test]
fn master_of_another_volume_is_refused() {
    // A table whose slot wraps another master key than its verifier speaks of.
    let table = KeySlotTable {
        header_salt: [3u8; 32],
        slots: vec![KeySlot::create(&[9u8; MASTER_LEN], b"a", 32, 1).unwrap()],
        verifier: volume_verifier(&[1u8; MASTER_LEN]),
    };
    let mut vault = AegisVault::from_master_key([2u8; MASTER_LEN]);
    assert!(matches!(
        vault.open_from_slots(&table.to_bytes(), &table.header_salt, b"a"),
        Err(AegisError::VolumeMismatch)
    ));
    assert!(!vault.verify_volume());
}

#[test]
fn rotation_drops_the_table() {
    let mut vault = AegisVault::from_master_key([1u8; MASTER_LEN]);
    vault.seal_slots(b"a").unwrap();
    let (nonce, ct) =
        vault.encrypt(Domain::Enc, b"x", b"", AegisAlgoTag::XChaCha20Poly1305).unwrap();
    vault.rotate_master();
    assert!(vault.slots_to_bytes().is_none());
    assert!(!vault.verify_volume());
    assert_eq!(vault.master().len(), MASTER_LEN);
    assert_ne!(vault.master().expose(), &[1u8; MASTER_LEN]);
    let h = KeyHierarchy::from_master(vault.master().expose()).unwrap();
    assert!(vault.domain(Domain::Enc).ct_eq(h.domain(Domain::Enc)));
    assert!(vault
        .decrypt(Domain::Enc, &nonce, &ct, b"", AegisAlgoTag::XChaCha20Poly1305)
        .is_err());
}

#[test]
fn given_keys_replace_the_master() {
    let mut vault = AegisVault::from_master_key([1u8; MASTER_LEN]);
    vault.seal_slots(b"a").unwrap();
    vault.rekey(AegisKey::new32(&[2u8; MASTER_LEN]));
    assert_eq!(vault.master().expose(), &[2u8; MASTER_LEN]);
    assert!(vault.slots_to_bytes().is_none());
    let h = KeyHierarchy::from_master(&[2u8; MASTER_LEN]).unwrap();
    assert!(vault.domain(Domain::Handle).ct_eq(h.domain(Domain::Handle)));
    let from_key = AegisVault::from_key(AegisKey::new32(&[2u8; MASTER_LEN]));
    assert!(from_key.master().ct_eq(vault.master()));
}

#[test]
fn vaults_are_given_up_for_their_keys() {
    let vault = AegisVault::from_master_key([5u8; MASTER_LEN]);
    let address = vault.master().expose().as_ptr();
    let h = KeyHierarchy::from_master(&[5u8; MASTER_LEN]).unwrap();
    let keys = vault.into_keys();
    assert_eq!(keys.len(), 7);
    assert_eq!(keys[0].expose(), &[5u8; MASTER_LEN]);
    // The key bytes are not copied.
    assert_eq!(keys[0].expose().as_ptr(), address);
    let domains =
        [Domain::Enc, Domain::Auth, Domain::Meta, Domain::Shard, Domain::Xts, Domain::Handle];
    for (key, d) in keys[1..].iter().zip(domains) {
        assert!(key.ct_eq(h.domain(d)));
    }
}

#[test]
fn sealing_again_replaces_the_table() {
    let mut vault = AegisVault::from_master_key([1u8; MASTER_LEN]);
    vault.seal_slots(b"a").unwrap();
    vault.seal_slots(b"b").unwrap();
    let salt = vault.slots_header_salt().unwrap();
    let bytes = vault.slots_to_bytes().unwrap();
    let mut other = AegisVault::from_master_key([2u8; MASTER_LEN]);
    assert!(other.open_from_slots(&bytes, &salt, b"a").is_err());
    other.open_from_slots(&bytes, &salt, b"b").unwrap();
}

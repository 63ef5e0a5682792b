//! Key derivation and the key hierarchy.

use soteria_aegis::hierarchy::info;
use soteria_aegis::{
    argon2id_root, hkdf_sha256, AegisError, AegisKey, Domain, KeyHierarchy, MASTER_SALT,
    SUBKEY_SALT,
};

fn unhex(text: &str) -> Vec<u8> {
    (0..text.len() / 2).map(|i| u8::from_str_radix(&text[2 * i..2 * i + 2], 16).unwrap()).collect()
}

#[test]
fn argon2id_deterministic() {
    let salt = [0x11u8; 16];
    let a = argon2id_root(b"correct horse", &salt, 64, 3).unwrap();
    let b = argon2id_root(b"correct horse", &salt, 64, 3).unwrap();
    assert!(a.ct_eq(&b));
}

#[test]
fn argon2id_sensitive_to_passphrase() {
    let salt = [0x22u8; 16];
    let a = argon2id_root(b"alpha", &salt, 64, 3).unwrap();
    let b = argon2id_root(b"beta", &salt, 64, 3).unwrap();
    assert!(!a.ct_eq(&b));
}

#[test]
fn hkdf_distinct_info_distinct_output() {
    let ikm = [0x33u8; 32];
    let x = hkdf_sha256(&ikm, b"salt", b"info-A").unwrap();
    let y = hkdf_sha256(&ikm, b"salt", b"info-B").unwrap();
    assert_ne!(x, y);
    let x2 = hkdf_sha256(&ikm, b"salt", b"info-A").unwrap();
    assert_eq!(x, x2);
}

#[test]
fn argon2id_known_answer() {
    let key = argon2id_root(b"password", b"somesalt", 256, 2).unwrap();
    assert_eq!(
        key.expose(),
        &unhex("9dfeb910e80bad0311fee20f9c0e2b12c17987b4cac90c2ef54d5b3021c68bfe")[..]
    );
}

#[test]
fn argon2id_depends_on_salt_and_costs() {
    let base = argon2id_root(b"pw", b"saltsalt", 64, 2).unwrap();
    assert!(!base.ct_eq(&argon2id_root(b"pw", b"saltsalu", 64, 2).unwrap()));
    assert!(!base.ct_eq(&argon2id_root(b"pw", b"saltsalt", 65, 2).unwrap()));
    assert!(!base.ct_eq(&argon2id_root(b"pw", b"saltsalt", 64, 3).unwrap()));
}

#[test]
fn argon2id_refuses_bad_parameters() {
    assert!(argon2id_root(b"pw", b"saltsalt", 8, 1).is_ok());
    assert!(argon2id_root(b"", b"saltsalt", 8, 1).is_ok());
    assert!(matches!(argon2id_root(b"pw", b"saltsalt", 7, 1), Err(AegisError::Argon2)));
    assert!(matches!(argon2id_root(b"pw", b"saltsalt", 0, 1), Err(AegisError::Argon2)));
    assert!(matches!(argon2id_root(b"pw", b"saltsalt", 8, 0), Err(AegisError::Argon2)));
    assert!(matches!(argon2id_root(b"pw", b"saltsal", 8, 1), Err(AegisError::Argon2)));
}

#[test]
fn hkdf_known_answer() {
    let salt: Vec<u8> = (0u8..13).collect();
    let info: Vec<u8> = (0xf0u8..0xfa).collect();
    assert_eq!(
        hkdf_sha256(&[0x0bu8; 22], &salt, &info).unwrap()[..],
        unhex("3cb25f25faacd57a90434f64d0362f2a2d2d0a90cf1a5a4c5db02d56ecc4c5bf")[..]
    );
}

#[test]
fn separates_domains() {
    let master = [0x42u8; 32];
    let h = KeyHierarchy::from_master(&master).unwrap();
    let enc = h.domain(Domain::Enc).expose().to_vec();
    let auth = h.domain(Domain::Auth).expose().to_vec();
    let meta = h.domain(Domain::Meta).expose().to_vec();
    let shard = h.domain(Domain::Shard).expose().to_vec();
    let xts = h.domain(Domain::Xts).expose().to_vec();
    let handle = h.domain(Domain::Handle).expose().to_vec();
    let set = std::collections::HashSet::from([
        enc.clone(),
        auth.clone(),
        meta.clone(),
        shard.clone(),
        xts.clone(),
        handle.clone(),
    ]);
    assert_eq!(set.len(), 6, "domain keys must be cryptographically independent");
}

#[test]
fn deterministic() {
    let master = [7u8; 32];
    let a = KeyHierarchy::from_master(&master).unwrap();
    let b = KeyHierarchy::from_master(&master).unwrap();
    assert!(a.domain(Domain::Enc).ct_eq(b.domain(Domain::Enc)));
    assert!(a.domain(Domain::Meta).ct_eq(b.domain(Domain::Meta)));
}

#[test]
fn legacy_uses_master_directly() {
    let master = [9u8; 32];
    let h = KeyHierarchy::legacy_single_key(&master);
    assert!(h.domain(Domain::Enc).ct_eq(&AegisKey::new32(&master)));
    assert!(h.domain(Domain::Auth).ct_eq(&AegisKey::new32(&master)));
}

#[test]
fn subkey_derivation() {
    let h = KeyHierarchy::from_master(&[1u8; 32]).unwrap();
    let k1 = KeyHierarchy::subkey(h.domain(Domain::Enc), b"file:foo").unwrap();
    let k2 = KeyHierarchy::subkey(h.domain(Domain::Enc), b"file:foo").unwrap();
    let k3 = KeyHierarchy::subkey(h.domain(Domain::Enc), b"file:bar").unwrap();
    assert!(k1.ct_eq(&k2));
    assert!(!k1.ct_eq(&k3));
}

#[test]
fn info_tags_unique() {
    let tags = [
        Domain::Enc.info_tag(),
        Domain::Auth.info_tag(),
        Domain::Meta.info_tag(),
        Domain::Shard.info_tag(),
        Domain::Xts.info_tag(),
        Domain::Handle.info_tag(),
    ];
    let set: std::collections::HashSet<_> = tags.iter().collect();
    assert_eq!(set.len(), tags.len());
}

#[test]
fn labels_are_the_documented_texts() {
    assert_eq!(&info::K_ENC[..], b"soteria-kh-v1/k-enc/aead-bulk");
    assert_eq!(&info::K_AUTH[..], b"soteria-kh-v1/k-auth/block-mac");
    assert_eq!(&info::K_META[..], b"soteria-kh-v1/k-meta/metadata");
    assert_eq!(&info::K_SHARD[..], b"soteria-kh-v1/k-shard/erasure-coding");
    assert_eq!(&info::K_XTS[..], b"soteria-kh-v1/k-xts/fde-sector");
    assert_eq!(&info::K_HANDLE[..], b"soteria-kh-v1/k-handle/identity");
    assert_eq!(&MASTER_SALT[..], b"soteria-kh-v1/master-salt");
    assert_eq!(&SUBKEY_SALT[..], b"soteria-kh-v1/subkey-salt");
}

#[test]
fn domain_keys_are_hkdf_outputs() {
    let master = [0x5au8; 32];
    let h = KeyHierarchy::from_master(&master).unwrap();
    let domains =
        [Domain::Enc, Domain::Auth, Domain::Meta, Domain::Shard, Domain::Xts, Domain::Handle];
    for d in domains {
        let expected = hkdf_sha256(&master, b"soteria-kh-v1/master-salt", d.info_tag()).unwrap();
        assert_eq!(h.domain(d).expose(), &expected[..]);
        let sub = KeyHierarchy::subkey(h.domain(d), b"ctx").unwrap();
        let expected = hkdf_sha256(h.domain(d).expose(), b"soteria-kh-v1/subkey-salt", b"ctx");
        assert_eq!(sub.expose(), &expected.unwrap()[..]);
    }
}

#[test]
fn hierarchy_takes_a_master_of_any_length() {
    for len in [0usize, 1, 31, 33, 100] {
        let h = KeyHierarchy::from_master(&vec![3u8; len]).unwrap();
        assert_eq!(h.domain(Domain::Xts).len(), 32);
    }
}

#[test]
fn legacy_keys_are_the_master_in_every_domain() {
    let h = KeyHierarchy::legacy_single_key(&[0xc3u8; 32]);
    let domains =
        [Domain::Enc, Domain::Auth, Domain::Meta, Domain::Shard, Domain::Xts, Domain::Handle];
    for d in domains {
        assert_eq!(h.domain(d).expose(), &[0xc3u8; 32]);
    }
}

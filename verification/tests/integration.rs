//! The whole way: passphrase, master key, domain keys, key slots, encryption.

use soteria_aegis::{AegisAlgoTag, AegisVault, Domain};

const SALT: &[u8] = b"integration-salt";

#[test]
fn full_lifecycle_protected_keys() {
    // 1. Unlock a vault from a passphrase.
    let mut vault =
        AegisVault::unlock(b"correct horse battery staple", SALT, 32 * 1024, 2).unwrap();

    // 2. The six domain keys are all distinct.
    let domains = [
        Domain::Enc,
        Domain::Auth,
        Domain::Meta,
        Domain::Shard,
        Domain::Xts,
        Domain::Handle,
    ];
    for a in &domains {
        for b in &domains {
            if a != b {
                assert!(!vault.domain(*a).ct_eq(vault.domain(*b)));
            }
        }
    }

    // 3. Seal the master key into a key slot.
    vault.seal_slots(b"correct horse battery staple").unwrap();

    // 4. Add a second slot for another user.
    let bob = vault.add_slot(b"bob-pw").unwrap();
    assert!(!vault.slots_to_bytes().unwrap().is_empty());
    _ = bob;

    // 5. Encrypt data with a domain key, decrypt it back.
    let (nonce, ct) = vault
        .encrypt(Domain::Enc, b"classified payload", b"file=42", AegisAlgoTag::XChaCha20Poly1305)
        .unwrap();
    let pt = vault
        .decrypt(Domain::Enc, &nonce, &ct, b"file=42", AegisAlgoTag::XChaCha20Poly1305)
        .unwrap();
    assert_eq!(pt, b"classified payload");

    // 6. Other associated data does not authenticate.
    assert!(vault
        .decrypt(Domain::Enc, &nonce, &ct, b"file=43", AegisAlgoTag::XChaCha20Poly1305)
        .is_err());

    // 7. Persist and reopen the slot table; the master key is the same.
    let bytes = vault.slots_to_bytes().unwrap();
    let salt = vault.slots_header_salt().unwrap();
    let mut reopened = AegisVault::unlock(b"ignored", SALT, 32 * 1024, 2).unwrap();
    reopened.open_from_slots(&bytes, &salt, b"bob-pw").unwrap();
    assert!(reopened.master().ct_eq(vault.master()));

    // 8. A key never leaks through `Debug`.
    assert_eq!(format!("{:?}", vault.master()), "AegisKey(<redacted>)");
}

#[test]
fn quick_launch() {
    let mut vault = AegisVault::unlock(
        b"correct horse battery staple",
        b"public-launch-salt",
        32 * 1024,
        2,
    )
    .unwrap();
    vault.seal_slots(b"correct horse battery staple").unwrap();
    assert_eq!(vault.add_slot(b"bob-pw").unwrap(), 1);
    let (nonce, ct) = vault
        .encrypt(Domain::Enc, b"classified payload", b"file=1", AegisAlgoTag::XChaCha20Poly1305)
        .unwrap();
    let bytes = vault.slots_to_bytes().unwrap();
    let salt = vault.slots_header_salt().unwrap();
    let mut reopened = AegisVault::unlock(b"ignored", b"public-launch-salt", 32 * 1024, 2).unwrap();
    reopened.open_from_slots(&bytes, &salt, b"bob-pw").unwrap();
    assert!(reopened.verify_volume());
    let pt = reopened
        .decrypt(Domain::Enc, &nonce, &ct, b"file=1", AegisAlgoTag::XChaCha20Poly1305)
        .unwrap();
    assert_eq!(pt, b"classified payload");
    assert_eq!(format!("{:?}", vault.master()), "AegisKey(<redacted>)");
}

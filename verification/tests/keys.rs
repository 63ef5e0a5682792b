//! Protected keys.

use soteria_aegis::AegisKey;

#[test]
fn holds_and_zeroizes_on_drop() {
    let k = AegisKey::new(&[0x42u8; 32]);
    assert_eq!(k.len(), 32);
    assert!(!k.is_empty());
    assert_eq!(k.expose(), &[0x42u8; 32]);
}

#[test]
fn debug_is_redacted() {
    let k = AegisKey::new(&[0x1u8; 32]);
    let s = format!("{:?}", k);
    assert_eq!(s, "AegisKey(<redacted>)");
    assert!(!s.contains("01"));
}

#[test]
fn ct_eq_is_constant_time_like() {
    let a = AegisKey::new(&[0xabu8; 32]);
    let b = AegisKey::new(&[0xabu8; 32]);
    let c = AegisKey::new(&[0xacu8; 32]);
    assert!(a.ct_eq(&b));
    assert!(!a.ct_eq(&c));
    assert!(!a.ct_eq(&AegisKey::new(&[0u8; 16]))); // length mismatch
}

#[test]
fn keys_differing_in_one_byte_are_unequal() {
    for i in 0..32 {
        let mut bytes = [7u8; 32];
        bytes[i] ^= 0x80;
        assert!(!AegisKey::new32(&bytes).ct_eq(&AegisKey::new32(&[7u8; 32])));
    }
}

#[test]
fn empty_keys_are_empty_and_equal() {
    let k = AegisKey::new(&[]);
    assert!(k.is_empty());
    assert_eq!(k.len(), 0);
    assert!(k.ct_eq(&AegisKey::new(&[])));
    assert!(!k.ct_eq(&AegisKey::new(&[0])));
}

#[test]
fn key_keeps_its_bytes_when_the_source_changes() {
    let mut source = vec![1u8, 2, 3];
    let k = AegisKey::new(&source);
    source[0] = 9;
    assert_eq!(k.expose(), &[1u8, 2, 3]);
    assert_eq!(k.debug_text(), "AegisKey(<redacted>)");
    k.burn();
}

#[test]
fn wiped_keys_are_zero_and_keep_their_length() {
    let mut k = AegisKey::new(&[0x42u8; 33]);
    k.wipe();
    assert_eq!(k.expose(), &[0u8; 33]);
}

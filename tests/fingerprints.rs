use gnedby::digest::{fingerprint, to_hex_lower};

#[test]
fn missing_file_has_empty_fingerprint() {
    assert_eq!(fingerprint(None), "empty");
}

#[test]
fn fingerprint_of_empty_file_is_sha256_of_nothing() {
    assert_eq!(
        fingerprint(Some(&[])),
        "e3b0c44298fc1c149afbf4c8996fb92427ae41e4649b934ca495991b7852b855"
    );
}

#[test]
fn fingerprint_of_abc() {
    assert_eq!(
        fingerprint(Some(b"abc")),
        "ba7816bf8f01cfea414140de5dae2223b00361a396177a9cb410ff61f20015ad"
    );
}

#[test]
fn fingerprint_is_stable() {
    let bytes = b"SQLite format 3\0 some albums".to_vec();
    assert_eq!(fingerprint(Some(&bytes)), fingerprint(Some(&bytes)));
}

#[test]
fn single_byte_change_changes_fingerprint() {
    let bytes = b"SQLite format 3\0 some albums".to_vec();
    let mut changed = bytes.clone();
    changed[5] ^= 1;
    assert_ne!(fingerprint(Some(&bytes)), fingerprint(Some(&changed)));
    assert_eq!(fingerprint(Some(&bytes)).len(), 64);
}

#[test]
fn hex_is_lowercase_two_digits_per_byte() {
    assert_eq!(to_hex_lower(&[0x00, 0xff, 0x1a, 0x9c]), "00ff1a9c");
    assert_eq!(to_hex_lower(&[]), "");
}

use mrpack_convert::digest::verify_bytes;

const SHA1_ABC: &str = "a9993e364706816aba3e25717850c26c9cd0d89d";
const SHA1_EMPTY: &str = "da39a3ee5e6b4b0d3255bfef95601890afd80709";

#[test]
fn matching_checksum_verifies() {
    let bytes = b"abc".to_vec();
    assert!(verify_bytes(&bytes, SHA1_ABC));
}

#[test]
fn empty_input_verifies_against_its_checksum() {
    let bytes: Vec<u8> = Vec::new();
    assert!(verify_bytes(&bytes, SHA1_EMPTY));
}

#[test]
fn comparison_is_case_insensitive() {
    let bytes = b"abc".to_vec();
    assert!(verify_bytes(
        &bytes,
        "A9993E364706816ABA3E25717850C26C9CD0D89D"
    ));
    assert!(verify_bytes(
        &bytes,
        "A9993e364706816aba3e25717850c26c9cd0d89D"
    ));
}

#[test]
fn wrong_checksum_fails() {
    let bytes = b"abc".to_vec();
    assert!(!verify_bytes(&bytes, SHA1_EMPTY));
    assert!(!verify_bytes(&bytes, ""));
    // same digits, one changed
    assert!(!verify_bytes(
        &bytes,
        "a9993e364706816aba3e25717850c26c9cd0d89e"
    ));
}

#[test]
fn single_byte_mutation_fails() {
    for i in 0..3 {
        let mut bytes = b"abc".to_vec();
        bytes[i] ^= 1;
        assert!(!verify_bytes(&bytes, SHA1_ABC));
    }
}

use sha2::{Digest, Sha256};
use zk_checkers::commitment::{commit, compute_commitment, verify_commitment};
use zk_checkers::decimal::u64_to_dec;

// NIST test vector: SHA-256("abc").
const SHA256_ABC: &str = "ba7816bf8f01cfea414140de5dae2223b00361a396177a9cb410ff61f20015ad";

// SHA-256 of the empty byte string.
const SHA256_EMPTY: &str = "e3b0c44298fc1c149afbf4c8996fb92427ae41e4649b934ca495991b7852b855";

#[test]
fn commit_matches_known_sha256_vector() {
    let parts = vec![b"abc".to_vec()];
    assert_eq!(commit(&parts), SHA256_ABC);
}

#[test]
fn commit_of_no_parts_is_digest_of_empty_input() {
    let parts: Vec<Vec<u8>> = vec![];
    assert_eq!(commit(&parts), SHA256_EMPTY);
}

#[test]
fn commit_concatenates_parts_in_order_without_separators() {
    let parts = vec![b"1000".to_vec(), b"abc".to_vec()];
    let expected = format!("{:x}", Sha256::digest(b"1000abc"));
    assert_eq!(commit(&parts), expected);

    let reordered = vec![b"abc".to_vec(), b"1000".to_vec()];
    assert_ne!(commit(&reordered), expected);
}

#[test]
fn commit_is_deterministic_across_invocations() {
    let parts = vec![b"42".to_vec(), b"salt".to_vec()];
    let first = commit(&parts);
    let second = commit(&parts);
    assert_eq!(first, second);
}

#[test]
fn verify_commitment_accepts_exactly_the_recomputed_digest() {
    let parts = vec![b"750".to_vec(), b"pepper".to_vec()];
    let digest = commit(&parts);
    assert!(verify_commitment(&parts, &digest));

    let mut tampered = digest.clone().into_bytes();
    tampered[0] = if tampered[0] == b'0' { b'1' } else { b'0' };
    let tampered = String::from_utf8(tampered).unwrap();
    assert!(!verify_commitment(&parts, &tampered));

    // Flipping a byte of a part flips the result too.
    let other_parts = vec![b"751".to_vec(), b"pepper".to_vec()];
    assert!(!verify_commitment(&other_parts, &digest));
}

#[test]
fn verify_commitment_is_case_sensitive() {
    let parts = vec![b"abc".to_vec()];
    let upper = SHA256_ABC.to_uppercase();
    assert!(!verify_commitment(&parts, &upper));
}

#[test]
fn compute_commitment_matches_sha2_of_value_then_salt() {
    let expected = format!("{:x}", Sha256::digest(b"1000abc"));
    assert_eq!(compute_commitment("1000", "abc"), expected);
}

#[test]
fn compute_commitment_ambiguity_of_separator_free_splits() {
    // Documented, deliberately unresolved: different splits of the same
    // concatenated bytes collide.
    assert_eq!(compute_commitment("12", "34"), compute_commitment("1", "234"));
}

#[test]
fn decimal_rendering_is_canonical() {
    assert_eq!(u64_to_dec(0), b"0".to_vec());
    assert_eq!(u64_to_dec(7), b"7".to_vec());
    assert_eq!(u64_to_dec(100), b"100".to_vec());
    assert_eq!(u64_to_dec(12345), b"12345".to_vec());
    assert_eq!(u64_to_dec(u64::MAX), b"18446744073709551615".to_vec());
}

use crypto_rs::digest::{compare_hashes, hash_file, is_valid_digest_str};
use crypto_rs::AppError;

const EMPTY_SHA512: &str = "cf83e1357eefb8bdf1542850d66d8007d620e4050b5715dc83f4a921d36ce9ce47d0d13c5d85f2b0ff8318d2877eec2f63b931bd47417a81a538327af927da3e";

const ABC_SHA512: &str = "ddaf35a193617abacc417349ae20413112e6fa4e89a97ea20a9eeee64b55d39a2192992a274fc1a836ba3c23a3feebbd454d4423643ce80e2a9ac94fa54ca49f";

#[test]
fn empty_input_matches_published_vector() {
    let d = hash_file(&Vec::new());
    assert_eq!(d, EMPTY_SHA512);
}

#[test]
fn abc_matches_published_vector() {
    let d = hash_file(&b"abc".to_vec());
    assert_eq!(d, ABC_SHA512);
}

#[test]
fn digest_is_deterministic() {
    let data: Vec<u8> = b"the same bytes every time".to_vec();
    let d1 = hash_file(&data);
    let d2 = hash_file(&data);
    assert_eq!(d1, d2);
    let other = hash_file(&b"different bytes".to_vec());
    assert_ne!(d1, other);
}

#[test]
fn digest_output_is_valid_compare_input() {
    let d = hash_file(&b"anything".to_vec());
    assert_eq!(d.len(), 128);
    assert!(is_valid_digest_str(&d));
    assert_eq!(compare_hashes(&d, &d), Ok(true));
}

#[test]
fn equal_digests_compare_true() {
    assert_eq!(compare_hashes(EMPTY_SHA512, EMPTY_SHA512), Ok(true));
}

#[test]
fn unequal_digests_compare_false() {
    assert_eq!(compare_hashes(EMPTY_SHA512, ABC_SHA512), Ok(false));
    // Digests differing only in their final character still compare false.
    let mut twin = String::from(&EMPTY_SHA512[..127]);
    twin.push('f');
    assert_ne!(twin, EMPTY_SHA512);
    assert_eq!(compare_hashes(EMPTY_SHA512, &twin), Ok(false));
}

#[test]
fn too_short_digest_rejected() {
    let short = &EMPTY_SHA512[..127];
    assert_eq!(
        compare_hashes(short, EMPTY_SHA512),
        Err(AppError::InvalidDigestFormat)
    );
}

#[test]
fn too_long_digest_rejected() {
    let mut long = String::from(EMPTY_SHA512);
    long.push('0');
    assert_eq!(
        compare_hashes(EMPTY_SHA512, &long),
        Err(AppError::InvalidDigestFormat)
    );
}

#[test]
fn uppercase_digest_rejected() {
    let upper = EMPTY_SHA512.to_uppercase();
    assert_eq!(
        compare_hashes(&upper, EMPTY_SHA512),
        Err(AppError::InvalidDigestFormat)
    );
}

#[test]
fn non_hex_digest_rejected() {
    let mut bad = String::from(&EMPTY_SHA512[..127]);
    bad.push('g');
    assert_eq!(
        compare_hashes(&bad, EMPTY_SHA512),
        Err(AppError::InvalidDigestFormat)
    );
    assert!(!is_valid_digest_str(&bad));
}

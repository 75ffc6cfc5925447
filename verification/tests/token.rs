use session_auth::token::{draw_key, generate, key_from_draw, source_bytes};
use session_auth::ApiError;
use std::collections::HashSet;
use std::num::NonZeroU32;

#[test]
fn source_is_the_identity_in_decimal_then_the_key_least_byte_first() {
    assert_eq!(
        source_bytes(12, 0x0807060504030201),
        vec![49, 50, 1, 2, 3, 4, 5, 6, 7, 8]
    );
}

#[test]
fn source_of_zero() {
    assert_eq!(source_bytes(0, 0), vec![48, 0, 0, 0, 0, 0, 0, 0, 0]);
}

#[test]
fn source_of_round_numbers_keeps_its_zeros() {
    assert_eq!(source_bytes(10, 1), vec![49, 48, 1, 0, 0, 0, 0, 0, 0, 0]);
    assert_eq!(source_bytes(9, 256), vec![57, 0, 1, 0, 0, 0, 0, 0, 0]);
    assert_eq!(source_bytes(1000, 0)[..4].to_vec(), vec![49, 48, 48, 48]);
}

#[test]
fn source_of_the_largest_identity_and_key() {
    let mut expected = "18446744073709551615".as_bytes().to_vec();
    expected.extend_from_slice(&[255; 8]);
    assert_eq!(source_bytes(u64::MAX, u64::MAX), expected);
}

#[test]
fn source_agrees_with_the_standard_library() {
    let ids: [u64; 6] = [0, 7, 99, 100, 123456789, u64::MAX - 1];
    let keys: [u64; 4] = [0, 1, 0xdeadbeef, u64::MAX];
    for id in ids {
        for key in keys {
            let mut expected = id.to_string().into_bytes();
            expected.extend_from_slice(&key.to_le_bytes());
            assert_eq!(source_bytes(id, key), expected);
        }
    }
}

#[test]
fn generate_gives_the_digest_of_the_source() {
    assert_eq!(
        generate(1, 0),
        "2c86f81fdc568d631c9dd0a075ec2a35b419f97c49638011ce83b71859f60e22"
    );
    assert_eq!(
        generate(1, 0x0807060504030201),
        "14c31982b7bf657fbc9cbc4914deed39ac1288aeb2ba570aec6d7606d2763994"
    );
    assert_eq!(
        generate(42, 7),
        "acc9c83c6801d4f41c58114a0d90b595d93427bed46ff543b35e2b1114f0d212"
    );
    assert_eq!(
        generate(u64::MAX, u64::MAX),
        "930dcdf784f3454e21847edcb67f5c6b2e8252254cbe823933dc3a5dacf810a2"
    );
}

#[test]
fn tokens_are_64_lower_case_hex_digits() {
    let token = generate(5, 99);
    assert_eq!(token.len(), 64);
    assert!(token.chars().all(|c| c.is_ascii_digit() || ('a'..='f').contains(&c)));
}

#[test]
fn tokens_differ_by_key_and_by_account() {
    assert_ne!(generate(42, 7), generate(42, 8));
    assert_ne!(generate(42, 7), generate(43, 7));
    assert_eq!(generate(42, 7), generate(42, 7));
}

#[test]
fn a_drawn_value_is_the_key() {
    assert_eq!(key_from_draw(Ok(5)), Ok(5));
    assert_eq!(key_from_draw(Ok(u64::MAX)), Ok(u64::MAX));
}

#[test]
fn a_refused_draw_is_a_storage_failure() {
    let code = NonZeroU32::new(rand_core::Error::CUSTOM_START).unwrap();
    assert_eq!(
        key_from_draw(Err(rand_core::Error::from(code))),
        Err(ApiError::StorageFailure)
    );
}

#[test]
fn drawn_keys_give_distinct_tokens() {
    let mut seen = HashSet::new();
    let mut trial = 0;
    while trial < 500 {
        let key = draw_key().unwrap();
        assert!(seen.insert(generate(7, key)));
        trial += 1;
    }
    assert_eq!(seen.len(), 500);
}

#[test]
fn drawn_keys_differ() {
    let first = draw_key().unwrap();
    let second = draw_key().unwrap();
    assert_ne!(first, second);
}

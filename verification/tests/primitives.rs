use pfsense_auto_backup::compare::constant_time_eq;
use pfsense_auto_backup::error::KeyError;
use pfsense_auto_backup::hex::hex_encode;
use pfsense_auto_backup::random::{fresh_dek, fresh_iv};

#[test]
fn hex_of_nothing_is_empty() {
    assert_eq!(hex_encode(&[]), "");
}

#[test]
fn hex_pads_each_byte_to_two_digits() {
    assert_eq!(hex_encode(&[0x00, 0x0f, 0xa0, 0xff]), "000fa0ff");
    assert_eq!(hex_encode(&[0x01]), "01");
    assert_eq!(hex_encode(&[0x10]), "10");
}

#[test]
fn hex_uses_lowercase_digits_in_byte_order() {
    assert_eq!(
        hex_encode(&[0x01, 0x23, 0x45, 0x67, 0x89, 0xab, 0xcd, 0xef]),
        "0123456789abcdef"
    );
}

#[test]
fn hex_matches_two_digit_formatting_for_every_byte() {
    for byte in 0u8..=255 {
        assert_eq!(hex_encode(&[byte]), format!("{:0>2x}", byte));
    }
}

#[test]
fn hex_of_a_data_key_has_64_characters() {
    let text = hex_encode(&[0x5a; 32]);
    assert_eq!(text.len(), 64);
    assert_eq!(text, "5a".repeat(32));
}

#[test]
fn hex_tells_different_bytes_apart() {
    assert_ne!(hex_encode(&[0x12, 0x34]), hex_encode(&[0x12, 0x35]));
    assert_ne!(hex_encode(&[0x01, 0x00]), hex_encode(&[0x10, 0x00]));
    assert_ne!(hex_encode(&[0x00]), hex_encode(&[0x00, 0x00]));
}

#[test]
fn equal_byte_strings_compare_equal() {
    assert!(constant_time_eq(b"", b""));
    assert!(constant_time_eq(b"a", b"a"));
    assert!(constant_time_eq(&[0u8; 64], &[0u8; 64]));
    assert!(constant_time_eq(b"$argon2id$v=19$", b"$argon2id$v=19$"));
}

#[test]
fn a_difference_at_any_place_is_found() {
    let base = [0x55u8; 40];
    for i in 0..base.len() {
        let mut other = base;
        other[i] ^= 0x80;
        assert!(!constant_time_eq(&base, &other));
        other[i] = base[i] ^ 0x01;
        assert!(!constant_time_eq(&base, &other));
    }
}

#[test]
fn byte_strings_of_different_length_differ() {
    assert!(!constant_time_eq(b"abc", b"abcd"));
    assert!(!constant_time_eq(b"abcd", b"abc"));
    assert!(!constant_time_eq(b"", b"\0"));
}

#[test]
fn differences_that_cancel_bitwise_are_still_found() {
    assert!(!constant_time_eq(&[0x01, 0x01], &[0x00, 0x00]));
    assert!(!constant_time_eq(&[0xff, 0x00], &[0x00, 0xff]));
}

#[test]
fn every_failure_has_its_text() {
    assert_eq!(
        KeyError::ConfigurationMissing.message(),
        "No encryption passphrase is configured."
    );
    assert_eq!(KeyError::RecordMissing.message(), "The .kek-info file is missing.");
    assert_eq!(
        KeyError::RecordCorrupt.message(),
        "The .kek-info file seems to be invalid. Try removing the file and restarting the application to fix this."
    );
    assert_eq!(KeyError::MetadataMissing.message(), "Metadata is missing.");
    assert_eq!(
        KeyError::MetadataCorrupt.message(),
        "Metadata seems to be of invalid format."
    );
    assert_eq!(
        KeyError::DerivationFailure.message(),
        "Unable to derive the key encryption key."
    );
    assert_eq!(
        KeyError::VerificationFailure.message(),
        "Unable to retrieve key encryption key."
    );
    assert_eq!(KeyError::KeyLengthInvalid.message(), "InvalidKeyIvLength");
    assert_eq!(KeyError::DecryptFailure.message(), "BlockModeError");
}

#[test]
fn fresh_vectors_and_keys_vary() {
    let vectors: Vec<[u8; 16]> = (0..8).map(|_| fresh_iv()).collect();
    let keys: Vec<[u8; 32]> = (0..8).map(|_| fresh_dek()).collect();
    for i in 0..8 {
        for j in (i + 1)..8 {
            assert_ne!(vectors[i], vectors[j]);
            assert_ne!(keys[i], keys[j]);
        }
    }
    assert!(keys.iter().any(|key| key.iter().any(|&byte| byte != 0)));
}

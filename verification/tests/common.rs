use q_seal_core::common::encoding::{is_encodable, key_text};
use q_seal_core::common::errors::{decryption_failure, Error};
use q_seal_core::common::random::{random_bytes, random_outcome};
use q_seal_core::common::utils::{constant_time_eq, zeroize, Base64String, CryptoConfig};
use q_seal_core::rotation::policy::{age, RotationPolicy};

#[test]
fn errors_read_as_label_and_message() {
    let cases = [
        (Error::GenerationFailed("a".to_string()), "Key generation failed: a"),
        (Error::EncryptionFailed("b".to_string()), "Encryption failed: b"),
        (Error::DecryptionFailed("c".to_string()), "Decryption failed: c"),
        (Error::KeyImportFailed("d".to_string()), "Key import failed: d"),
        (Error::KeyExportFailed("e".to_string()), "Key export failed: e"),
        (Error::KeyNotFound("f".to_string()), "Key not found: f"),
        (Error::KeyExpired("g".to_string()), "Key expired: g"),
        (Error::StorageSealFailed("h".to_string()), "Sealing the key container failed: h"),
        (Error::StorageOpenFailed("i".to_string()), "Opening the key container failed: i"),
        (Error::Operation("".to_string()), "Operation failed: "),
    ];
    for (error, text) in cases {
        assert_eq!(error.to_string(), text);
    }
}

#[test]
fn the_decryption_failure_is_one_fixed_error() {
    assert_eq!(
        decryption_failure(),
        Error::DecryptionFailed("decryption failed".to_string())
    );
    assert_eq!(decryption_failure().to_string(), "Decryption failed: decryption failed");
}

#[test]
fn constant_time_eq_compares_bytes() {
    assert!(constant_time_eq(b"", b""));
    assert!(constant_time_eq(b"same", b"same"));
    assert!(!constant_time_eq(b"same", b"sane"));
    assert!(!constant_time_eq(b"same", b"samee"));
    assert!(!constant_time_eq(b"", b"x"));
    assert!(!constant_time_eq(&[0x00], &[0x80]));
    assert!(!constant_time_eq(&[1, 2, 3], &[0, 2, 3]));
    assert!(!constant_time_eq(&[1, 2, 3], &[1, 2, 2]));
    // A difference that a later equal byte must not hide.
    assert!(!constant_time_eq(&[1, 0, 0], &[2, 0, 0]));
}

#[test]
fn zeroize_wipes_and_keeps_the_length() {
    let mut secret = vec![1u8, 2, 3, 255];
    zeroize(&mut secret);
    assert_eq!(secret, vec![0u8, 0, 0, 0]);
    let mut empty: Vec<u8> = Vec::new();
    zeroize(&mut empty);
    assert!(empty.is_empty());
}

#[test]
fn base64_string_shows_standard_base64() {
    assert_eq!(Base64String(b"hello world~".to_vec()).to_string(), "aGVsbG8gd29ybGR+");
    assert_eq!(Base64String(vec![]).to_string(), "");
    assert_eq!(Base64String(vec![0xfb]).to_string(), "+w==");
    assert_eq!(Base64String(vec![0xff, 0xff]).to_string(), "//8=");
    let from: Base64String = Base64String::from(vec![1u8, 2, 3]);
    assert_eq!(from.0, vec![1u8, 2, 3]);
    assert_eq!(from.as_bytes(), &[1u8, 2, 3]);
    assert_eq!(from.to_string(), "AQID");
}

#[test]
fn encodable_lengths() {
    assert!(is_encodable(0));
    assert!(is_encodable(32));
    assert!(is_encodable(1 << 20));
    // Three bytes become four characters: beyond three quarters of the
    // address space the text has no length.
    assert!(!is_encodable(usize::MAX));
    assert!(!is_encodable(usize::MAX / 4 * 3));
    assert!(is_encodable(usize::MAX / 4 * 3 - 3));
}

#[test]
fn defaults_of_the_configuration() {
    let config = CryptoConfig::default();
    assert_eq!(config.rsa_key_bits, 2048);
    assert_eq!(config.kyber_parameter_set, 768);
    let policy = RotationPolicy::default();
    assert_eq!(policy.max_age, Some(90 * 24 * 60 * 60));
    assert_eq!(policy.max_uses, None);
    assert_eq!(policy.retention, 365 * 24 * 60 * 60);
}

#[test]
fn random_bytes_have_the_length_asked_for() {
    assert_eq!(random_bytes(0).unwrap().len(), 0);
    assert_eq!(random_bytes(12).unwrap().len(), 12);
    let a = random_bytes(32).unwrap();
    let b = random_bytes(32).unwrap();
    assert_eq!(a.len(), 32);
    assert_ne!(a, vec![0u8; 32]);
    assert_ne!(a, b);
}

#[test]
fn a_failed_random_source_is_an_operation_error() {
    assert_eq!(random_outcome(vec![1, 2, 3], Ok(())), Ok(vec![1, 2, 3]));
    assert_eq!(
        random_outcome(vec![0, 0, 0], Err("no entropy".to_string())),
        Err(Error::Operation("no entropy".to_string()))
    );
}

#[test]
fn age_never_goes_below_zero() {
    assert_eq!(age(10, 25), 15);
    assert_eq!(age(25, 25), 0);
    assert_eq!(age(25, 10), 0);
    assert_eq!(age(0, u64::MAX), u64::MAX);
}

#[test]
fn a_version_is_due_past_its_age_or_at_its_use_limit() {
    let by_age = RotationPolicy { max_age: Some(100), max_uses: None, retention: 0 };
    assert!(!by_age.is_due(0, 0, 100));
    assert!(by_age.is_due(0, 0, 101));
    assert!(!by_age.is_due(50, u64::MAX, 150));
    assert!(by_age.is_due(50, 0, 151));
    assert!(!by_age.is_due(200, 0, 100));

    let by_use = RotationPolicy { max_age: None, max_uses: Some(3), retention: 0 };
    assert!(!by_use.is_due(0, 2, u64::MAX));
    assert!(by_use.is_due(0, 3, 0));
    assert!(by_use.is_due(0, 4, 0));

    let both = RotationPolicy { max_age: Some(10), max_uses: Some(3), retention: 0 };
    assert!(!both.is_due(0, 2, 10));
    assert!(both.is_due(0, 2, 11));
    assert!(both.is_due(0, 3, 10));

    let never = RotationPolicy { max_age: None, max_uses: None, retention: 0 };
    assert!(!never.is_due(0, u64::MAX, u64::MAX));

    let at_once = RotationPolicy { max_age: None, max_uses: Some(0), retention: 0 };
    assert!(at_once.is_due(0, 0, 0));
}

#[test]
fn a_retired_version_is_overdue_past_the_retention() {
    let policy = RotationPolicy { max_age: None, max_uses: None, retention: 50 };
    assert!(!policy.is_overdue(100, 150));
    assert!(policy.is_overdue(100, 151));
    assert!(!policy.is_overdue(100, 0));
    let keep = RotationPolicy { max_age: None, max_uses: None, retention: u64::MAX };
    assert!(!keep.is_overdue(0, u64::MAX));
    let none = RotationPolicy { max_age: None, max_uses: None, retention: 0 };
    assert!(!none.is_overdue(5, 5));
    assert!(none.is_overdue(5, 6));
}

#[test]
fn options_are_set_by_name() {
    let base = CryptoConfig::default();
    assert_eq!(base.rotation, RotationPolicy::default());
    assert_eq!(base.with_option("rsa_key_bits", 4096).rsa_key_bits, 4096);
    assert_eq!(base.with_option("rsa_key_bits", 4096).kyber_parameter_set, 768);
    assert_eq!(base.with_option("kyber_parameter_set", 1024).kyber_parameter_set, 1024);
    assert_eq!(base.with_option("max_key_age", 60).rotation.max_age, Some(60));
    assert_eq!(base.with_option("max_key_uses", 5).rotation.max_uses, Some(5));
    assert_eq!(base.with_option("key_retention", 7).rotation.retention, 7);
    assert_eq!(base.with_option("key_retention", 7).rotation.max_age, Some(7776000));
}

#[test]
fn options_that_are_not_known_are_ignored() {
    let base = CryptoConfig::default();
    assert_eq!(base.with_option("colour", 3), base);
    assert_eq!(base.with_option("", 3), base);
    assert_eq!(base.with_option("RSA_KEY_BITS", 3), base);
    assert_eq!(base.with_option("rsa_key_bits ", 3), base);
}

#[test]
fn a_list_of_options_starts_from_the_defaults() {
    assert_eq!(CryptoConfig::from_options(&[]), CryptoConfig::default());
    let config = CryptoConfig::from_options(&[
        ("max_key_uses".to_string(), 10),
        ("unknown".to_string(), 1),
        ("rsa_key_bits".to_string(), 3072),
        ("max_key_uses".to_string(), 20),
    ]);
    assert_eq!(
        config,
        CryptoConfig {
            rsa_key_bits: 3072,
            kyber_parameter_set: 768,
            rotation: RotationPolicy {
                max_age: Some(7776000),
                max_uses: Some(20),
                retention: 31536000,
            },
        }
    );
}

#[test]
fn the_library_has_a_version() {
    assert_eq!(q_seal_core::VERSION, "0.1.0");
}

#[test]
fn key_text_is_padded_base64() {
    assert_eq!(key_text(&[]).unwrap(), "");
    assert_eq!(key_text(&[1]).unwrap(), "AQ==");
    assert_eq!(key_text(&[1, 2]).unwrap(), "AQI=");
    assert_eq!(key_text(&[1, 2, 3]).unwrap(), "AQID");
    assert_eq!(key_text(&[1, 2, 3, 4]).unwrap(), "AQIDBA==");
    for len in 0..50usize {
        let text = key_text(&vec![0xa5u8; len]).unwrap();
        assert_eq!(text.len(), len / 3 * 4 + if len % 3 == 0 { 0 } else { 4 });
        let pads = match len % 3 {
            1 => 2,
            2 => 1,
            _ => 0,
        };
        assert_eq!(text.matches('=').count(), pads);
        assert!(text[text.len() - pads..].chars().all(|c| c == '='));
        assert_eq!(Base64String(vec![0xa5u8; len]).to_string(), text);
    }
}

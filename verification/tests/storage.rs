use q_seal_core::common::errors::Error;
use q_seal_core::common::framing::{join, split};
use q_seal_core::common::utils::SystemTag;
use q_seal_core::storage::container::{metadata, EncryptedKeyContainer};
use q_seal_core::symmetric::systems::aes_gcm::{AesGcmKey, AesGcmSystem};

fn storage_key() -> AesGcmKey {
    AesGcmKey::from_bytes(vec![0x42u8; 32]).unwrap()
}

fn open_failure() -> Error {
    Error::StorageOpenFailed("container could not be opened".to_string())
}

#[test]
fn a_sealed_key_opens_to_itself() {
    let key_bytes: Vec<u8> = (0u8..32).collect();
    let record =
        EncryptedKeyContainer::seal(&key_bytes, SystemTag::Symmetric, 1, &storage_key()).unwrap();
    assert_eq!(record.system_tag(), SystemTag::Symmetric);
    assert_eq!(record.version(), 1);
    assert_eq!(record.nonce().len(), 12);
    assert_eq!(record.ciphertext().len(), 32);
    assert_eq!(record.integrity_tag().len(), 16);
    assert_ne!(record.ciphertext(), key_bytes.as_slice());
    assert_eq!(record.open(&storage_key()).unwrap(), key_bytes);
}

#[test]
fn a_tampered_container_does_not_open() {
    let key_bytes = [0xabu8; 32];
    let record =
        EncryptedKeyContainer::seal(&key_bytes, SystemTag::Symmetric, 1, &storage_key()).unwrap();
    let stored = record.to_bytes();
    // The ciphertext follows nine bytes of metadata and twelve of nonce.
    let mut tampered = stored.clone();
    tampered[9 + 12] ^= 0x01;
    let read = EncryptedKeyContainer::from_bytes(&tampered).unwrap();
    assert_eq!(read.open(&storage_key()), Err(open_failure()));
    // The untouched bytes still open.
    let read = EncryptedKeyContainer::from_bytes(&stored).unwrap();
    assert_eq!(read.open(&storage_key()).unwrap(), key_bytes);
}

#[test]
fn any_changed_byte_of_a_stored_container_is_noticed() {
    let key_bytes = [0x17u8; 32];
    let record =
        EncryptedKeyContainer::seal(&key_bytes, SystemTag::HybridBundle, 7, &storage_key())
            .unwrap();
    let stored = record.to_bytes();
    assert_eq!(stored.len(), 9 + 12 + 32 + 16);
    for at in 0..stored.len() {
        let mut changed = stored.clone();
        changed[at] ^= 0x80;
        let opened = match EncryptedKeyContainer::from_bytes(&changed) {
            Ok(read) => read.open(&storage_key()),
            Err(e) => Err(e),
        };
        assert_eq!(opened, Err(open_failure()));
    }
}

#[test]
fn a_container_does_not_open_under_another_tag_or_version() {
    let key_bytes = [1u8; 32];
    let record =
        EncryptedKeyContainer::seal(&key_bytes, SystemTag::ClassicalPrivate, 3, &storage_key())
            .unwrap();
    let stored = record.to_bytes();
    assert_eq!(stored[0], 1);
    assert_eq!(&stored[1..9], &[3, 0, 0, 0, 0, 0, 0, 0]);

    let mut other_tag = stored.clone();
    other_tag[0] = 3;
    let read = EncryptedKeyContainer::from_bytes(&other_tag).unwrap();
    assert_eq!(read.system_tag(), SystemTag::PostQuantumPrivate);
    assert_eq!(read.open(&storage_key()), Err(open_failure()));

    let mut other_version = stored.clone();
    other_version[1] = 4;
    let read = EncryptedKeyContainer::from_bytes(&other_version).unwrap();
    assert_eq!(read.version(), 4);
    assert_eq!(read.open(&storage_key()), Err(open_failure()));
}

#[test]
fn a_container_does_not_open_under_another_storage_key() {
    let record =
        EncryptedKeyContainer::seal(&[5u8; 32], SystemTag::Symmetric, 1, &storage_key()).unwrap();
    let other = AesGcmKey::from_bytes(vec![0x43u8; 32]).unwrap();
    assert_eq!(record.open(&other), Err(open_failure()));
}

#[test]
fn metadata_is_the_tag_then_the_version() {
    assert_eq!(metadata(SystemTag::Symmetric, 1), vec![6, 1, 0, 0, 0, 0, 0, 0, 0]);
    assert_eq!(
        metadata(SystemTag::ClassicalPrivate, 0x0102030405060708),
        vec![1, 8, 7, 6, 5, 4, 3, 2, 1]
    );
    assert_eq!(
        metadata(SystemTag::HybridBundle, u64::MAX),
        vec![5, 255, 255, 255, 255, 255, 255, 255, 255]
    );
    assert_eq!(metadata(SystemTag::PostQuantumPublic, 0), vec![4, 0, 0, 0, 0, 0, 0, 0, 0]);
}

#[test]
fn the_sealed_bytes_are_an_aes_gcm_ciphertext_under_the_metadata() {
    let nonce = [9u8; 12];
    let record = EncryptedKeyContainer::seal_with_nonce(
        b"raw key material",
        SystemTag::PostQuantumPrivate,
        258,
        &storage_key(),
        &nonce,
    )
    .unwrap();
    let expected = AesGcmSystem::encrypt_with_nonce(
        &storage_key(),
        &nonce,
        b"raw key material",
        Some(&[3, 2, 1, 0, 0, 0, 0, 0, 0]),
    )
    .unwrap();
    assert_eq!(record.nonce(), &nonce);
    assert_eq!(record.ciphertext(), &expected.0[12..12 + 16]);
    assert_eq!(record.integrity_tag(), &expected.0[12 + 16..]);
    let mut written = vec![3, 2, 1, 0, 0, 0, 0, 0, 0];
    written.extend_from_slice(&expected.0);
    assert_eq!(record.to_bytes(), written);
    assert_eq!(record.open(&storage_key()).unwrap(), b"raw key material");
}

#[test]
fn sealing_refuses_a_nonce_of_the_wrong_length() {
    let res = EncryptedKeyContainer::seal_with_nonce(
        b"k",
        SystemTag::Symmetric,
        1,
        &storage_key(),
        &[0u8; 8],
    );
    assert!(matches!(res, Err(Error::StorageSealFailed(_))));
}

#[test]
fn empty_key_material_can_be_sealed() {
    let record =
        EncryptedKeyContainer::seal(&[], SystemTag::Symmetric, 1, &storage_key()).unwrap();
    assert!(record.ciphertext().is_empty());
    assert_eq!(record.to_bytes().len(), 9 + 28);
    assert_eq!(record.open(&storage_key()).unwrap(), Vec::<u8>::new());
}

#[test]
fn reading_inverts_writing() {
    let record =
        EncryptedKeyContainer::seal(&[8u8; 48], SystemTag::ClassicalPublic, 99, &storage_key())
            .unwrap();
    let read = EncryptedKeyContainer::from_bytes(&record.to_bytes()).unwrap();
    assert_eq!(read.system_tag(), record.system_tag());
    assert_eq!(read.version(), record.version());
    assert_eq!(read.nonce(), record.nonce());
    assert_eq!(read.ciphertext(), record.ciphertext());
    assert_eq!(read.integrity_tag(), record.integrity_tag());
    assert_eq!(read.to_bytes(), record.to_bytes());
}

#[test]
fn bytes_that_hold_no_record_are_refused() {
    assert_eq!(EncryptedKeyContainer::from_bytes(&[]).unwrap_err(), open_failure());
    // One byte short of the least record.
    let mut short = vec![6u8];
    short.extend_from_slice(&[0u8; 8 + 27]);
    assert_eq!(EncryptedKeyContainer::from_bytes(&short).unwrap_err(), open_failure());
    // Long enough, but no tag is written as 0 or as 7.
    let mut unknown = vec![0u8; 9 + 28];
    assert_eq!(EncryptedKeyContainer::from_bytes(&unknown).unwrap_err(), open_failure());
    unknown[0] = 7;
    assert_eq!(EncryptedKeyContainer::from_bytes(&unknown).unwrap_err(), open_failure());
    unknown[0] = 6;
    assert!(EncryptedKeyContainer::from_bytes(&unknown).is_ok());
}

#[test]
fn tags_have_their_codes() {
    let all = [
        (SystemTag::ClassicalPrivate, 1u8),
        (SystemTag::ClassicalPublic, 2),
        (SystemTag::PostQuantumPrivate, 3),
        (SystemTag::PostQuantumPublic, 4),
        (SystemTag::HybridBundle, 5),
        (SystemTag::Symmetric, 6),
    ];
    for (tag, code) in all {
        assert_eq!(tag.code(), code);
        assert_eq!(SystemTag::from_code(code), Some(tag));
    }
    assert_eq!(SystemTag::from_code(0), None);
    assert_eq!(SystemTag::from_code(7), None);
    assert_eq!(SystemTag::from_code(255), None);
}

#[test]
fn join_writes_the_length_of_the_head_first() {
    assert_eq!(join(&[1, 2], &[3]), vec![2, 0, 0, 0, 0, 0, 0, 0, 1, 2, 3]);
    assert_eq!(join(&[], &[]), vec![0, 0, 0, 0, 0, 0, 0, 0]);
    assert_eq!(join(&[], &[7]), vec![0, 0, 0, 0, 0, 0, 0, 0, 7]);
    let head = vec![0xeeu8; 300];
    let joined = join(&head, &[1]);
    assert_eq!(&joined[..8], &[0x2c, 0x01, 0, 0, 0, 0, 0, 0]);
    assert_eq!(joined.len(), 8 + 300 + 1);
}

#[test]
fn split_inverts_join() {
    let joined = join(&[1, 2], &[3, 4, 5]);
    let (head, tail) = split(&joined).unwrap();
    assert_eq!(head, &[1, 2]);
    assert_eq!(tail, &[3, 4, 5]);
    let joined = join(&[], &[]);
    let (head, tail) = split(&joined).unwrap();
    assert!(head.is_empty());
    assert!(tail.is_empty());
}

#[test]
fn split_refuses_what_is_too_short() {
    assert!(split(&[]).is_none());
    assert!(split(&[1, 0, 0, 0, 0, 0, 0]).is_none());
    // Announces one byte and has none.
    assert!(split(&[1, 0, 0, 0, 0, 0, 0, 0]).is_none());
    // Announces one byte and has it.
    assert_eq!(split(&[1, 0, 0, 0, 0, 0, 0, 0, 9]).unwrap().0, &[9]);
    // Announces more than any buffer holds.
    assert!(split(&[255, 255, 255, 255, 255, 255, 255, 255, 9]).is_none());
    assert!(split(&[0, 0, 0, 0, 0, 0, 0, 128, 9]).is_none());
}

//! The encrypted key container: private key material sealed under a storage
//! key, with the system tag and the key version bound to the ciphertext.
//!
//! A record is written as one byte for the system tag, eight bytes for the
//! version (least significant first), then the sealed bytes: a 12-byte nonce,
//! the ciphertext, and the 16-byte integrity tag.

use crate::common::errors::Error;
use crate::common::random::random_bytes;
use crate::common::utils::SystemTag;
use crate::symmetric::aead::{within_limits, NONCE_SIZE, TAG_SIZE};
use crate::symmetric::systems::aes_gcm::{
    is_encryption_of, open_spec, seal_spec, AesGcmKey, AesGcmSystem,
};
use vstd::bytes::{
    lemma_auto_spec_u64_to_from_le_bytes, spec_u64_from_le_bytes, spec_u64_to_le_bytes,
    u64_from_le_bytes, u64_to_le_bytes,
};
use vstd::prelude::*;
use vstd::slice::slice_subrange;
use vstd::string::*;

verus! {

/// Length of the metadata in front of a written record, in bytes.
pub const METADATA_SIZE: usize = 9;

/// The least number of sealed bytes: a nonce and an integrity tag around an
/// empty ciphertext.
pub const MIN_SEALED_SIZE: usize = 28;

/// A container as a plain value.
pub struct ContainerView {
    pub system_tag: SystemTag,
    pub version: u64,
    pub sealed: Seq<u8>,
}

/// A sealed key. Its tag and version are fixed when it is made: there is no
/// way to change them but to seal again.
#[derive(Debug)]
pub struct EncryptedKeyContainer {
    system_tag: SystemTag,
    version: u64,
    sealed: Vec<u8>,
}

impl View for EncryptedKeyContainer {
    type V = ContainerView;

    closed spec fn view(&self) -> ContainerView {
        ContainerView { system_tag: self.system_tag, version: self.version, sealed: self.sealed@ }
    }
}

/// The associated data that binds a record's tag and version to its
/// ciphertext: the tag's byte, then the version in eight bytes.
pub open spec fn metadata_spec(system_tag: SystemTag, version: u64) -> Seq<u8> {
    seq![system_tag.code_spec()] + spec_u64_to_le_bytes(version)
}

/// The written form of a record.
pub open spec fn to_bytes_spec(record: ContainerView) -> Seq<u8> {
    metadata_spec(record.system_tag, record.version) + record.sealed
}

/// The record that bytes hold. `None` where they are too few to hold the
/// metadata and the least sealed part, or the first byte stands for no tag.
pub open spec fn from_bytes_spec(bytes: Seq<u8>) -> Option<ContainerView> {
    if bytes.len() < METADATA_SIZE + MIN_SEALED_SIZE {
        None
    } else {
        match SystemTag::from_code_spec(bytes[0]) {
            Some(system_tag) => Some(
                ContainerView {
                    system_tag,
                    version: spec_u64_from_le_bytes(bytes.subrange(1, METADATA_SIZE as int)),
                    sealed: bytes.subrange(METADATA_SIZE as int, bytes.len() as int),
                },
            ),
            None => None,
        }
    }
}

/// The key material in a record, opened with `storage_key`. `None` where the
/// cipher rejects the sealed bytes under the record's own metadata.
pub open spec fn open_container_spec(record: ContainerView, storage_key: Seq<u8>) -> Option<Seq<u8>> {
    open_spec(storage_key, record.sealed, metadata_spec(record.system_tag, record.version))
}

/// The one error that every failure to open or read a container returns.
pub open spec fn is_open_failure(e: Error) -> bool {
    e matches Error::StorageOpenFailed(m) && m@ == "container could not be opened"@
}

fn open_failure() -> (e: Error)
    ensures
        is_open_failure(e),
{
    Error::StorageOpenFailed(String::from_str("container could not be opened"))
}

/// The associated data for a tag and a version.
pub fn metadata(system_tag: SystemTag, version: u64) -> (bytes: Vec<u8>)
    ensures
        bytes@ == metadata_spec(system_tag, version),
        bytes@.len() == METADATA_SIZE,
{
    let mut bytes: Vec<u8> = Vec::new();
    bytes.push(system_tag.code());
    let version_bytes = u64_to_le_bytes(version);
    bytes.extend_from_slice(version_bytes.as_slice());
    bytes
}

impl EncryptedKeyContainer {
    #[verifier::type_invariant]
    spec fn well_formed(&self) -> bool {
        self.sealed@.len() >= MIN_SEALED_SIZE
    }

    /// Seals `raw_key_bytes` under `storage_key` with a fresh random nonce.
    ///
    /// Succeeds whenever the random source does and the key material is
    /// within the cipher's length limit; every failure is
    /// `StorageSealFailed`. Whatever nonce was drawn, the record opens under
    /// the same storage key to `raw_key_bytes`.
    pub fn seal(
        raw_key_bytes: &[u8],
        system_tag: SystemTag,
        version: u64,
        storage_key: &AesGcmKey,
    ) -> (res: Result<EncryptedKeyContainer, Error>)
        ensures
            res matches Ok(record) ==> {
                &&& record@.system_tag == system_tag
                &&& record@.version == version
                &&& is_encryption_of(
                    record@.sealed,
                    storage_key@,
                    raw_key_bytes@,
                    metadata_spec(system_tag, version),
                )
                &&& open_container_spec(record@, storage_key@) == Some(raw_key_bytes@)
            },
            res is Ok ==> within_limits(raw_key_bytes@, metadata_spec(system_tag, version)),
            res matches Err(e) ==> e is StorageSealFailed,
    {
        match random_bytes(NONCE_SIZE) {
            Ok(nonce) => Self::seal_with_nonce(
                raw_key_bytes,
                system_tag,
                version,
                storage_key,
                nonce.as_slice(),
            ),
            Err(e) => Err(Error::StorageSealFailed(e.to_string())),
        }
    }

    /// Seals `raw_key_bytes` under the nonce given. A nonce must never be
    /// used twice with one storage key.
    ///
    /// Fails with `StorageSealFailed` exactly when the nonce is not 12 bytes
    /// long or the key material exceeds the cipher's length limit.
    pub fn seal_with_nonce(
        raw_key_bytes: &[u8],
        system_tag: SystemTag,
        version: u64,
        storage_key: &AesGcmKey,
        nonce: &[u8],
    ) -> (res: Result<EncryptedKeyContainer, Error>)
        ensures
            match seal_spec(
                storage_key@,
                nonce@,
                raw_key_bytes@,
                metadata_spec(system_tag, version),
            ) {
                Some(sealed) => res matches Ok(record) && record@ == (ContainerView {
                    system_tag,
                    version,
                    sealed,
                }),
                None => res matches Err(e) && e is StorageSealFailed,
            },
            res is Ok <==> nonce@.len() == NONCE_SIZE && within_limits(
                raw_key_bytes@,
                metadata_spec(system_tag, version),
            ),
            res matches Ok(record) ==> is_encryption_of(
                record@.sealed,
                storage_key@,
                raw_key_bytes@,
                metadata_spec(system_tag, version),
            ),
            res matches Ok(record) ==> open_container_spec(record@, storage_key@) == Some(
                raw_key_bytes@,
            ),
    {
        let aad = metadata(system_tag, version);
        match AesGcmSystem::encrypt_with_nonce(
            storage_key,
            nonce,
            raw_key_bytes,
            Some(aad.as_slice()),
        ) {
            Ok(blob) => Ok(EncryptedKeyContainer { system_tag, version, sealed: blob.0 }),
            Err(e) => Err(Error::StorageSealFailed(e.to_string())),
        }
    }

    /// Opens the record with `storage_key` and returns the key material.
    ///
    /// A wrong storage key, changed sealed bytes and changed metadata all
    /// give the same `StorageOpenFailed` error.
    pub fn open(&self, storage_key: &AesGcmKey) -> (res: Result<Vec<u8>, Error>)
        ensures
            match open_container_spec(self@, storage_key@) {
                Some(raw) => res matches Ok(out) && out@ == raw,
                None => res matches Err(e) && is_open_failure(e),
            },
    {
        let aad = metadata(self.system_tag, self.version);
        match AesGcmSystem::decrypt_bytes(storage_key, self.sealed.as_slice(), Some(aad.as_slice())) {
            Ok(raw) => Ok(raw),
            Err(_) => Err(open_failure()),
        }
    }

    /// The system that the sealed key belongs to.
    pub fn system_tag(&self) -> (tag: SystemTag)
        ensures
            tag == self@.system_tag,
    {
        self.system_tag
    }

    /// The version of the sealed key.
    pub fn version(&self) -> (version: u64)
        ensures
            version == self@.version,
    {
        self.version
    }

    /// The nonce that the key was sealed under.
    pub fn nonce(&self) -> (nonce: &[u8])
        ensures
            nonce@ == self@.sealed.subrange(0, NONCE_SIZE as int),
    {
        proof {
            use_type_invariant(self);
        }
        slice_subrange(self.sealed.as_slice(), 0, NONCE_SIZE)
    }

    /// The encrypted key material, without nonce and integrity tag.
    pub fn ciphertext(&self) -> (ciphertext: &[u8])
        ensures
            ciphertext@ == self@.sealed.subrange(
                NONCE_SIZE as int,
                self@.sealed.len() - TAG_SIZE,
            ),
    {
        proof {
            use_type_invariant(self);
        }
        slice_subrange(self.sealed.as_slice(), NONCE_SIZE, self.sealed.len() - TAG_SIZE)
    }

    /// The integrity tag: the last 16 sealed bytes.
    pub fn integrity_tag(&self) -> (tag: &[u8])
        ensures
            tag@ == self@.sealed.subrange(
                self@.sealed.len() - TAG_SIZE,
                self@.sealed.len() as int,
            ),
    {
        proof {
            use_type_invariant(self);
        }
        slice_subrange(self.sealed.as_slice(), self.sealed.len() - TAG_SIZE, self.sealed.len())
    }

    /// The record in its written form.
    pub fn to_bytes(&self) -> (bytes: Vec<u8>)
        ensures
            bytes@ == to_bytes_spec(self@),
            from_bytes_spec(bytes@) == Some(self@),
    {
        proof {
            use_type_invariant(self);
            lemma_from_bytes_inverts_to_bytes(self@);
        }
        let mut bytes = metadata(self.system_tag, self.version);
        bytes.extend_from_slice(self.sealed.as_slice());
        proof {
            assert(bytes@ == to_bytes_spec(self@));
        }
        bytes
    }

    /// Reads a record from its written form. Bytes that hold no record give
    /// `StorageOpenFailed`, the same error as a record that does not open.
    pub fn from_bytes(bytes: &[u8]) -> (res: Result<EncryptedKeyContainer, Error>)
        ensures
            match from_bytes_spec(bytes@) {
                Some(record) => res matches Ok(out) && out@ == record,
                None => res matches Err(e) && is_open_failure(e),
            },
    {
        if bytes.len() < METADATA_SIZE + MIN_SEALED_SIZE {
            return Err(open_failure());
        }
        let system_tag = match SystemTag::from_code(bytes[0]) {
            Some(tag) => tag,
            None => {
                return Err(open_failure());
            },
        };
        let version = u64_from_le_bytes(slice_subrange(bytes, 1, METADATA_SIZE));
        let mut sealed: Vec<u8> = Vec::new();
        sealed.extend_from_slice(slice_subrange(bytes, METADATA_SIZE, bytes.len()));
        proof {
            assert(sealed@ == bytes@.subrange(METADATA_SIZE as int, bytes@.len() as int));
        }
        Ok(EncryptedKeyContainer { system_tag, version, sealed })
    }
}

/// Reading inverts writing: the written form of a record with at least the
/// least sealed part reads back as the same record.
pub proof fn lemma_from_bytes_inverts_to_bytes(record: ContainerView)
    requires
        record.sealed.len() >= MIN_SEALED_SIZE,
    ensures
        from_bytes_spec(to_bytes_spec(record)) == Some(record),
{
    lemma_auto_spec_u64_to_from_le_bytes();
    let bytes = to_bytes_spec(record);
    let version_bytes = spec_u64_to_le_bytes(record.version);
    assert(bytes.subrange(1, METADATA_SIZE as int) == version_bytes);
    assert(bytes.subrange(METADATA_SIZE as int, bytes.len() as int) == record.sealed);
}

/// The metadata tells tag and version apart: two records are bound to the
/// same associated data only if they agree on both.
pub proof fn lemma_metadata_is_injective(tag_a: SystemTag, version_a: u64, tag_b: SystemTag, version_b: u64)
    requires
        metadata_spec(tag_a, version_a) == metadata_spec(tag_b, version_b),
    ensures
        tag_a == tag_b,
        version_a == version_b,
{
    lemma_auto_spec_u64_to_from_le_bytes();
    let a = metadata_spec(tag_a, version_a);
    let b = metadata_spec(tag_b, version_b);
    assert(b[0] == tag_b.code_spec());
    assert(a.subrange(1, METADATA_SIZE as int) == spec_u64_to_le_bytes(version_a));
    assert(b.subrange(1, METADATA_SIZE as int) == spec_u64_to_le_bytes(version_b));
}

/// Opening inverts sealing: a record whose sealed bytes are a ciphertext of
/// `raw` under `storage_key` and the record's own metadata opens, under that
/// key, to `raw`.
pub proof fn lemma_open_inverts_seal(record: ContainerView, storage_key: Seq<u8>, raw: Seq<u8>)
    requires
        is_encryption_of(
            record.sealed,
            storage_key,
            raw,
            metadata_spec(record.system_tag, record.version),
        ),
    ensures
        open_container_spec(record, storage_key) == Some(raw),
{
}

} // verus!

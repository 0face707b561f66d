//! The interface that every symmetric system offers.

use crate::common::encoding::base64_decode;
use crate::common::errors::{is_decryption_failure, Error};
use crate::common::utils::{associated, Base64String, CryptoConfig};
use vstd::prelude::*;

verus! {

/// A symmetric authenticated-encryption system: one key encrypts and
/// decrypts, a ciphertext carries its own nonce, and ciphertexts and keys are
/// written as base64 text.
///
/// The three specification functions say what an implementation's keys and
/// ciphertexts mean; one that is verified defines them, and for any other
/// they stay unspecified, as nothing checks the contracts of code that is not
/// verified.
pub trait SymmetricCryptographicSystem {
    /// A key of the system.
    type Key;

    /// The bytes of a key.
    open spec fn key_bytes_spec(key: &Self::Key) -> Seq<u8> {
        arbitrary()
    }

    /// Whether bytes are a key of the system.
    open spec fn is_key_spec(bytes: Seq<u8>) -> bool {
        arbitrary()
    }

    /// The plaintext that the key with bytes `key` recovers from the bytes
    /// of a ciphertext; `None` where decryption fails.
    open spec fn open_spec(key: Seq<u8>, ciphertext: Seq<u8>, aad: Seq<u8>) -> Option<Seq<u8>> {
        arbitrary()
    }

    /// A fresh random key. Every failure is `GenerationFailed`.
    fn generate_key(config: &CryptoConfig) -> (res: Result<Self::Key, Error>)
        ensures
            res matches Ok(key) ==> Self::is_key_spec(Self::key_bytes_spec(&key)),
            res matches Err(e) ==> e is GenerationFailed,
    ;

    /// Encrypts `plaintext`. What comes out decrypts, under the same key and
    /// associated data, to `plaintext`.
    fn encrypt(key: &Self::Key, plaintext: &[u8], additional_data: Option<&[u8]>) -> (res: Result<
        Base64String,
        Error,
    >)
        ensures
            res matches Ok(out) ==> Self::open_spec(
                Self::key_bytes_spec(key),
                out@,
                associated(additional_data),
            ) == Some(plaintext@),
            res matches Err(e) ==> e is EncryptionFailed || e is Operation,
    ;

    /// Decrypts a ciphertext given as base64 text. Every failure is the same
    /// `DecryptionFailed` error, whatever went wrong.
    fn decrypt(key: &Self::Key, ciphertext_b64: &str, additional_data: Option<&[u8]>) -> (res:
        Result<Vec<u8>, Error>)
        ensures
            match base64_decode(ciphertext_b64@) {
                Some(bytes) => match Self::open_spec(
                    Self::key_bytes_spec(key),
                    bytes,
                    associated(additional_data),
                ) {
                    Some(plaintext) => res matches Ok(out) && out@ == plaintext,
                    None => res matches Err(e) && is_decryption_failure(e),
                },
                None => res matches Err(e) && is_decryption_failure(e),
            },
    ;

    /// The key as base64 text, which imports to the same key.
    fn export_key(key: &Self::Key) -> (res: Result<String, Error>)
        ensures
            res matches Ok(text) ==> base64_decode(text@) == Some(Self::key_bytes_spec(key))
                && Self::is_key_spec(Self::key_bytes_spec(key)),
            res matches Err(e) ==> e is KeyExportFailed,
    ;

    /// A key from base64 text. Fails with `KeyImportFailed` exactly when the
    /// text is not base64 or its bytes are no key of the system.
    fn import_key(key_data: &str) -> (res: Result<Self::Key, Error>)
        ensures
            match base64_decode(key_data@) {
                Some(bytes) => if Self::is_key_spec(bytes) {
                    res matches Ok(key) && Self::key_bytes_spec(&key) == bytes
                } else {
                    res matches Err(e) && e is KeyImportFailed
                },
                None => res matches Err(e) && e is KeyImportFailed,
            },
    ;
}

} // verus!

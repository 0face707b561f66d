//! The interface that every public-key system offers, whatever its
//! algorithm. Callers depend on this interface alone.

use crate::common::encoding::{
    base64_decode, decode_standard, encodable_len, import_failure, key_text,
};
use crate::common::errors::{decryption_failure, is_decryption_failure, Error};
use crate::common::utils::{associated, Base64String, CryptoConfig, SystemTag};
use vstd::prelude::*;
use vstd::string::*;

verus! {

/// A public-key encryption system.
///
/// An implementation supplies the algorithm: key generation, encryption to
/// bytes, decryption from bytes, and the byte form of its keys. The text
/// forms of ciphertexts and keys are the same for every system, base64 of the
/// bytes, and come with the trait.
///
/// The contracts below are what callers rely on. The five specification
/// functions say what an implementation's keys and ciphertexts mean; one that
/// is verified defines them, and for any other they stay unspecified, as
/// nothing checks the contracts of code that is not verified.
pub trait AsymmetricCryptographicSystem {
    /// The half of a key pair that encrypts.
    type PublicKey;

    /// The half of a key pair that decrypts.
    type PrivateKey;

    /// Whether `private_key` is the private half that belongs to
    /// `public_key`.
    open spec fn is_key_pair(public_key: &Self::PublicKey, private_key: &Self::PrivateKey) -> bool {
        arbitrary()
    }

    /// The plaintext that `private_key` recovers from the bytes of a
    /// ciphertext; `None` where decryption fails.
    open spec fn open_spec(
        private_key: &Self::PrivateKey,
        ciphertext: Seq<u8>,
        aad: Seq<u8>,
    ) -> Option<Seq<u8>> {
        arbitrary()
    }

    /// The public key that bytes stand for, if any.
    open spec fn public_key_spec(bytes: Seq<u8>) -> Option<Self::PublicKey> {
        arbitrary()
    }

    /// The private key that bytes stand for, if any.
    open spec fn private_key_spec(bytes: Seq<u8>) -> Option<Self::PrivateKey> {
        arbitrary()
    }

    /// The tag under which the system's private keys are stored.
    open spec fn private_tag_spec() -> SystemTag {
        arbitrary()
    }

    /// A fresh key pair. Every failure is `GenerationFailed`.
    fn generate_keypair(config: &CryptoConfig) -> (res: Result<
        (Self::PublicKey, Self::PrivateKey),
        Error,
    >)
        ensures
            res matches Ok(pair) ==> Self::is_key_pair(&pair.0, &pair.1),
            res matches Err(e) ==> e is GenerationFailed,
    ;

    /// Encrypts `plaintext` to `public_key`. What comes out decrypts, under
    /// the private half and the same associated data, to `plaintext`. Every
    /// failure is `EncryptionFailed`.
    fn encrypt(
        public_key: &Self::PublicKey,
        plaintext: &[u8],
        additional_data: Option<&[u8]>,
    ) -> (res: Result<Base64String, Error>)
        ensures
            res matches Ok(out) ==> forall|private_key: Self::PrivateKey|
                Self::is_key_pair(public_key, &private_key) ==> #[trigger] Self::open_spec(
                    &private_key,
                    out@,
                    associated(additional_data),
                ) == Some(plaintext@),
            res matches Err(e) ==> e is EncryptionFailed,
    ;

    /// Decrypts the bytes of a ciphertext. Every failure is the same
    /// `DecryptionFailed` error, whatever went wrong.
    fn decrypt_bytes(
        private_key: &Self::PrivateKey,
        ciphertext: &[u8],
        additional_data: Option<&[u8]>,
    ) -> (res: Result<Vec<u8>, Error>)
        ensures
            match Self::open_spec(private_key, ciphertext@, associated(additional_data)) {
                Some(plaintext) => res matches Ok(out) && out@ == plaintext,
                None => res matches Err(e) && is_decryption_failure(e),
            },
    ;

    /// The bytes of a public key, from which `public_key_from_bytes` makes
    /// the same key again.
    fn public_key_bytes(key: &Self::PublicKey) -> (bytes: Vec<u8>)
        ensures
            Self::public_key_spec(bytes@) == Some(*key),
    ;

    /// The bytes of a private key, from which `private_key_from_bytes` makes
    /// the same key again.
    fn private_key_bytes(key: &Self::PrivateKey) -> (bytes: Vec<u8>)
        ensures
            Self::private_key_spec(bytes@) == Some(*key),
    ;

    /// A public key from its bytes. Bytes that stand for no key give
    /// `KeyImportFailed`.
    fn public_key_from_bytes(bytes: &[u8]) -> (res: Result<Self::PublicKey, Error>)
        ensures
            match Self::public_key_spec(bytes@) {
                Some(key) => res == Ok::<Self::PublicKey, Error>(key),
                None => res matches Err(e) && e is KeyImportFailed,
            },
    ;

    /// A private key from its bytes. Bytes that stand for no key give
    /// `KeyImportFailed`.
    fn private_key_from_bytes(bytes: &[u8]) -> (res: Result<Self::PrivateKey, Error>)
        ensures
            match Self::private_key_spec(bytes@) {
                Some(key) => res == Ok::<Self::PrivateKey, Error>(key),
                None => res matches Err(e) && e is KeyImportFailed,
            },
    ;

    /// The tag under which the system's private keys are stored.
    fn private_tag() -> (tag: SystemTag)
        ensures
            tag == Self::private_tag_spec(),
    ;

    /// Decrypts a ciphertext given as base64 text. Text that is not base64
    /// fails like any other ciphertext that does not decrypt.
    fn decrypt(
        private_key: &Self::PrivateKey,
        ciphertext_b64: &str,
        additional_data: Option<&[u8]>,
    ) -> (res: Result<Vec<u8>, Error>)
        ensures
            match base64_decode(ciphertext_b64@) {
                Some(bytes) => match Self::open_spec(
                    private_key,
                    bytes,
                    associated(additional_data),
                ) {
                    Some(plaintext) => res matches Ok(out) && out@ == plaintext,
                    None => res matches Err(e) && is_decryption_failure(e),
                },
                None => res matches Err(e) && is_decryption_failure(e),
            },
    {
        match decode_standard(ciphertext_b64) {
            Ok(bytes) => Self::decrypt_bytes(private_key, bytes.as_slice(), additional_data),
            Err(_) => Err(decryption_failure()),
        }
    }

    /// The public key as base64 text, which imports to the same key. Fails
    /// with `KeyExportFailed` exactly when the key's bytes are too many for
    /// their text to be addressed.
    fn export_public_key(key: &Self::PublicKey) -> (res: Result<String, Error>)
        ensures
            res matches Ok(text) ==> (base64_decode(text@) matches Some(bytes)
                && Self::public_key_spec(bytes) == Some(*key)),
            res matches Err(e) ==> e is KeyExportFailed,
            (forall|bytes: Seq<u8>| #[trigger]
                Self::public_key_spec(bytes) == Some(*key) ==> encodable_len(bytes.len()))
                ==> res is Ok,
            res is Err ==> exists|bytes: Seq<u8>| #[trigger]
                Self::public_key_spec(bytes) == Some(*key) && !encodable_len(bytes.len()),
    {
        let bytes = Self::public_key_bytes(key);
        key_text(bytes.as_slice())
    }

    /// The private key as base64 text, which imports to the same key. Fails
    /// with `KeyExportFailed` exactly when the key's bytes are too many for
    /// their text to be addressed.
    fn export_private_key(key: &Self::PrivateKey) -> (res: Result<String, Error>)
        ensures
            res matches Ok(text) ==> (base64_decode(text@) matches Some(bytes)
                && Self::private_key_spec(bytes) == Some(*key)),
            res matches Err(e) ==> e is KeyExportFailed,
            (forall|bytes: Seq<u8>| #[trigger]
                Self::private_key_spec(bytes) == Some(*key) ==> encodable_len(bytes.len()))
                ==> res is Ok,
            res is Err ==> exists|bytes: Seq<u8>| #[trigger]
                Self::private_key_spec(bytes) == Some(*key) && !encodable_len(bytes.len()),
    {
        let bytes = Self::private_key_bytes(key);
        key_text(bytes.as_slice())
    }

    /// A public key from base64 text. Fails with `KeyImportFailed` exactly
    /// when the text is not base64 or its bytes stand for no key.
    fn import_public_key(key_data: &str) -> (res: Result<Self::PublicKey, Error>)
        ensures
            match base64_decode(key_data@) {
                Some(bytes) => match Self::public_key_spec(bytes) {
                    Some(key) => res == Ok::<Self::PublicKey, Error>(key),
                    None => res matches Err(e) && e is KeyImportFailed,
                },
                None => res matches Err(e) && e is KeyImportFailed,
            },
    {
        match decode_standard(key_data) {
            Ok(bytes) => Self::public_key_from_bytes(bytes.as_slice()),
            Err(e) => Err(import_failure(&e)),
        }
    }

    /// A private key from base64 text. Fails with `KeyImportFailed` exactly
    /// when the text is not base64 or its bytes stand for no key.
    fn import_private_key(key_data: &str) -> (res: Result<Self::PrivateKey, Error>)
        ensures
            match base64_decode(key_data@) {
                Some(bytes) => match Self::private_key_spec(bytes) {
                    Some(key) => res == Ok::<Self::PrivateKey, Error>(key),
                    None => res matches Err(e) && e is KeyImportFailed,
                },
                None => res matches Err(e) && e is KeyImportFailed,
            },
    {
        match decode_standard(key_data) {
            Ok(bytes) => Self::private_key_from_bytes(bytes.as_slice()),
            Err(e) => Err(import_failure(&e)),
        }
    }
}

/// The plaintext that a ciphertext in its text form decrypts to: the text is
/// base64 for bytes that the system opens.
pub open spec fn decrypt_spec<S: AsymmetricCryptographicSystem + ?Sized>(
    private_key: &S::PrivateKey,
    text: Seq<char>,
    aad: Seq<u8>,
) -> Option<Seq<u8>> {
    match base64_decode(text) {
        Some(bytes) => S::open_spec(private_key, bytes, aad),
        None => None,
    }
}

/// The public key that a text imports to.
pub open spec fn import_public_key_spec<S: AsymmetricCryptographicSystem + ?Sized>(
    text: Seq<char>,
) -> Option<S::PublicKey> {
    match base64_decode(text) {
        Some(bytes) => S::public_key_spec(bytes),
        None => None,
    }
}

/// The private key that a text imports to.
pub open spec fn import_private_key_spec<S: AsymmetricCryptographicSystem + ?Sized>(
    text: Seq<char>,
) -> Option<S::PrivateKey> {
    match base64_decode(text) {
        Some(bytes) => S::private_key_spec(bytes),
        None => None,
    }
}

/// Decryption inverts encryption, for every system: where `blob` opens under
/// `private_key` to `plaintext`, any text that is base64 for `blob` decrypts
/// to `plaintext`.
pub proof fn lemma_text_decrypts_as_bytes_open<S: AsymmetricCryptographicSystem>(
    private_key: S::PrivateKey,
    blob: Seq<u8>,
    text: Seq<char>,
    aad: Seq<u8>,
    plaintext: Seq<u8>,
)
    requires
        S::open_spec(&private_key, blob, aad) == Some(plaintext),
        base64_decode(text) == Some(blob),
    ensures
        decrypt_spec::<S>(&private_key, text, aad) == Some(plaintext),
{
}

} // verus!

//! AES-256-GCM as a symmetric system: keys of 32 bytes, a fresh 12-byte nonce
//! in front of every ciphertext, base64 text on the outside.

use crate::common::encoding::{
    base64_decode, decode_standard, encode_standard, import_failure, is_text_of,
};
use crate::common::errors::{decryption_failure, is_decryption_failure, Error};
use crate::common::random::random_bytes;
use crate::common::utils::{associated, associated_or, Base64String, CryptoConfig};
use crate::symmetric::aead::{
    aead_decrypt, aead_encrypt, aes256_gcm_decrypt, aes256_gcm_encrypt, within_limits, KEY_SIZE,
    NONCE_SIZE, TAG_SIZE,
};
use crate::symmetric::traits::SymmetricCryptographicSystem;
use vstd::prelude::*;
use vstd::slice::slice_subrange;
use vstd::string::*;

verus! {

/// The AES-256-GCM system. It has no state; its functions are associated.
pub struct AesGcmSystem;

/// A key of the system: exactly 32 bytes, which stay private.
pub struct AesGcmKey(Vec<u8>);

impl View for AesGcmKey {
    type V = Seq<u8>;

    closed spec fn view(&self) -> Seq<u8> {
        self.0@
    }
}

impl Clone for AesGcmKey {
    fn clone(&self) -> (copy: AesGcmKey)
        ensures
            copy@ == self@,
    {
        proof {
            use_type_invariant(self);
        }
        let mut bytes: Vec<u8> = Vec::new();
        bytes.extend_from_slice(self.0.as_slice());
        AesGcmKey(bytes)
    }
}

impl AesGcmKey {
    #[verifier::type_invariant]
    spec fn well_formed(&self) -> bool {
        self.0@.len() == KEY_SIZE
    }

    /// A key from its bytes. Anything but 32 bytes is refused with
    /// `KeyImportFailed`.
    pub fn from_bytes(bytes: Vec<u8>) -> (res: Result<AesGcmKey, Error>)
        ensures
            bytes@.len() == KEY_SIZE ==> (res matches Ok(key) && key@ == bytes@),
            bytes@.len() != KEY_SIZE ==> (res matches Err(e) && e is KeyImportFailed),
    {
        if bytes.len() != KEY_SIZE {
            let mut message = String::from_str("Invalid key size: expected 32, got ");
            let got = bytes.len().to_string();
            message.append(got.as_str());
            return Err(Error::KeyImportFailed(message));
        }
        Ok(AesGcmKey(bytes))
    }

    /// Overwrites the key with zeros. What is left is the all-zero key,
    /// which no one should use; the secret that was here is gone.
    pub fn erase(&mut self)
        ensures
            final(self)@ == Seq::new(KEY_SIZE as nat, |i: int| 0u8),
    {
        proof {
            use_type_invariant(&*self);
        }
        let zeros: Vec<u8> = vec![0u8; KEY_SIZE];
        self.0 = zeros;
    }

    /// The key's bytes.
    pub fn as_bytes(&self) -> (bytes: &[u8])
        ensures
            bytes@ == self@,
            bytes@.len() == KEY_SIZE,
    {
        proof {
            use_type_invariant(self);
        }
        self.0.as_slice()
    }
}

/// The bytes of a ciphertext: the nonce, then what the cipher makes of the
/// plaintext. `None` where the nonce has the wrong length or the cipher
/// refuses.
pub open spec fn seal_spec(key: Seq<u8>, nonce: Seq<u8>, plaintext: Seq<u8>, aad: Seq<u8>) -> Option<
    Seq<u8>,
> {
    if nonce.len() != NONCE_SIZE {
        None
    } else {
        match aes256_gcm_encrypt(key, nonce, plaintext, aad) {
            Some(ciphertext) => Some(nonce + ciphertext),
            None => None,
        }
    }
}

/// The plaintext in the bytes of a ciphertext: the first 12 bytes are the
/// nonce, the rest goes to the cipher. `None` where the bytes are too few to
/// hold a nonce or the cipher rejects them.
pub open spec fn open_spec(key: Seq<u8>, blob: Seq<u8>, aad: Seq<u8>) -> Option<Seq<u8>> {
    if blob.len() < NONCE_SIZE {
        None
    } else {
        aes256_gcm_decrypt(
            key,
            blob.subrange(0, NONCE_SIZE as int),
            blob.subrange(NONCE_SIZE as int, blob.len() as int),
            aad,
        )
    }
}

/// The plaintext in a ciphertext given as text. `None` where the text is not
/// base64 or `open_spec` gives `None` for its bytes.
pub open spec fn decrypt_spec(key: Seq<u8>, text: Seq<char>, aad: Seq<u8>) -> Option<Seq<u8>> {
    match base64_decode(text) {
        Some(blob) => open_spec(key, blob, aad),
        None => None,
    }
}

/// Whether `blob` is a ciphertext of `plaintext` under `key` and `aad`: it
/// starts with a nonce, the rest is what the cipher makes of the plaintext
/// under that nonce, and it opens to the plaintext.
pub open spec fn is_encryption_of(blob: Seq<u8>, key: Seq<u8>, plaintext: Seq<u8>, aad: Seq<u8>) -> bool {
    &&& blob.len() == NONCE_SIZE + plaintext.len() + TAG_SIZE
    &&& seal_spec(key, blob.subrange(0, NONCE_SIZE as int), plaintext, aad) == Some(blob)
    &&& open_spec(key, blob, aad) == Some(plaintext)
}

/// The key bytes that a text imports to: the text is base64 for exactly 32
/// bytes. `None` otherwise.
pub open spec fn import_key_spec(text: Seq<char>) -> Option<Seq<u8>> {
    match base64_decode(text) {
        Some(bytes) => if bytes.len() == KEY_SIZE {
            Some(bytes)
        } else {
            None
        },
        None => None,
    }
}

/// Whether `text` is the exported form of the key bytes `key`: the text
/// form of the bytes. For the 32 bytes of a key that is 44 characters, the
/// last of them one `=`.
pub open spec fn is_export_of(text: Seq<char>, key: Seq<u8>) -> bool {
    is_text_of(text, key)
}

impl AesGcmSystem {
    /// A fresh random key. Only the operating system's random source can
    /// make this fail; the error is then `GenerationFailed`.
    pub fn generate_key(_config: &CryptoConfig) -> (res: Result<AesGcmKey, Error>)
        ensures
            res matches Ok(key) ==> key@.len() == KEY_SIZE,
            res matches Err(e) ==> e is GenerationFailed,
    {
        Self::key_from_draw(random_bytes(KEY_SIZE))
    }

    /// The key that a draw of random bytes makes: the bytes drawn are the
    /// key, each call's own. A failed draw is `GenerationFailed`, with the
    /// draw's error as its message; so is a draw of anything but 32 bytes.
    pub fn key_from_draw(drawn: Result<Vec<u8>, Error>) -> (res: Result<AesGcmKey, Error>)
        ensures
            match drawn {
                Ok(bytes) => if bytes@.len() == KEY_SIZE {
                    res matches Ok(key) && key@ == bytes@
                } else {
                    res matches Err(e) && e is GenerationFailed
                },
                Err(cause) => res matches Err(Error::GenerationFailed(message)) && message@
                    == cause.label() + ": "@ + cause.message(),
            },
    {
        match drawn {
            Ok(bytes) => {
                if bytes.len() != KEY_SIZE {
                    return Err(
                        Error::GenerationFailed(String::from_str("a key must be 32 bytes long")),
                    );
                }
                Ok(AesGcmKey(bytes))
            },
            Err(cause) => Err(Error::GenerationFailed(cause.to_string())),
        }
    }

    /// Encrypts `plaintext` under a fresh random nonce. The result holds the
    /// nonce followed by the ciphertext.
    ///
    /// Succeeds whenever the random source does and the cipher's length
    /// limits are kept. Whatever nonce was drawn, the result decrypts to
    /// `plaintext` under the same key and associated data.
    pub fn encrypt(key: &AesGcmKey, plaintext: &[u8], additional_data: Option<&[u8]>) -> (res: Result<Base64String, Error>)
        ensures
            res matches Ok(out) ==> is_encryption_of(
                out@,
                key@,
                plaintext@,
                associated(additional_data),
            ),
            res is Ok ==> within_limits(plaintext@, associated(additional_data)),
            res matches Err(e) ==> e is Operation || (e is EncryptionFailed && !within_limits(
                plaintext@,
                associated(additional_data),
            )),
    {
        let nonce = match random_bytes(NONCE_SIZE) {
            Ok(nonce) => nonce,
            Err(e) => {
                return Err(e);
            },
        };
        Self::encrypt_with_nonce(key, nonce.as_slice(), plaintext, additional_data)
    }

    /// Encrypts `plaintext` under the nonce given. A nonce must never be
    /// used twice with one key: callers other than `encrypt` have to see to
    /// that themselves.
    ///
    /// Fails with `EncryptionFailed` exactly when the nonce is not 12 bytes
    /// long or the plaintext or associated data exceeds the cipher's limit.
    pub fn encrypt_with_nonce(
        key: &AesGcmKey,
        nonce: &[u8],
        plaintext: &[u8],
        additional_data: Option<&[u8]>,
    ) -> (res: Result<Base64String, Error>)
        ensures
            match seal_spec(key@, nonce@, plaintext@, associated(additional_data)) {
                Some(blob) => res matches Ok(out) && out@ == blob,
                None => res matches Err(e) && e is EncryptionFailed,
            },
            res is Ok <==> nonce@.len() == NONCE_SIZE && within_limits(
                plaintext@,
                associated(additional_data),
            ),
            res matches Ok(out) ==> is_encryption_of(
                out@,
                key@,
                plaintext@,
                associated(additional_data),
            ),
    {
        proof {
            use_type_invariant(key);
        }
        if nonce.len() != NONCE_SIZE {
            return Err(Error::EncryptionFailed(String::from_str("nonce must be 12 bytes long")));
        }
        let empty: Vec<u8> = Vec::new();
        let aad = associated_or(additional_data, empty.as_slice());
        match aead_encrypt(key.0.as_slice(), nonce, plaintext, aad) {
            Some(ciphertext) => {
                let mut blob: Vec<u8> = Vec::new();
                blob.extend_from_slice(nonce);
                blob.extend_from_slice(ciphertext.as_slice());
                proof {
                    assert(blob@.subrange(0, NONCE_SIZE as int) == nonce@);
                    assert(blob@.subrange(NONCE_SIZE as int, blob@.len() as int) == ciphertext@);
                }
                Ok(Base64String::from(blob))
            },
            None => Err(Error::EncryptionFailed(String::from_str("aead::Error"))),
        }
    }

    /// Decrypts a ciphertext given as base64 text.
    ///
    /// Malformed text, bytes too few to hold a nonce, a wrong key, changed
    /// ciphertext and changed associated data all give the same
    /// `DecryptionFailed` error, with the same message.
    pub fn decrypt(key: &AesGcmKey, ciphertext_b64: &str, additional_data: Option<&[u8]>) -> (res: Result<Vec<u8>, Error>)
        ensures
            match decrypt_spec(key@, ciphertext_b64@, associated(additional_data)) {
                Some(plaintext) => res matches Ok(out) && out@ == plaintext,
                None => res matches Err(e) && is_decryption_failure(e),
            },
            res matches Ok(out) ==> (base64_decode(ciphertext_b64@) matches Some(blob)
                && blob.len() == NONCE_SIZE + out@.len() + TAG_SIZE),
    {
        match decode_standard(ciphertext_b64) {
            Ok(blob) => Self::decrypt_bytes(key, blob.as_slice(), additional_data),
            Err(_) => Err(decryption_failure()),
        }
    }

    /// Decrypts a ciphertext given as bytes: the nonce, then the cipher's
    /// output. Every failure is the same `DecryptionFailed` error. Bytes too
    /// few to hold a nonce and a tag always fail, and a plaintext that comes
    /// out is shorter than the bytes by the nonce and the tag.
    pub fn decrypt_bytes(key: &AesGcmKey, blob: &[u8], additional_data: Option<&[u8]>) -> (res: Result<Vec<u8>, Error>)
        ensures
            match open_spec(key@, blob@, associated(additional_data)) {
                Some(plaintext) => res matches Ok(out) && out@ == plaintext,
                None => res matches Err(e) && is_decryption_failure(e),
            },
            blob@.len() < NONCE_SIZE + TAG_SIZE ==> res is Err,
            res matches Ok(out) ==> blob@.len() == NONCE_SIZE + out@.len() + TAG_SIZE,
    {
        proof {
            use_type_invariant(key);
        }
        if blob.len() < NONCE_SIZE {
            return Err(decryption_failure());
        }
        let nonce = slice_subrange(blob, 0, NONCE_SIZE);
        let ciphertext = slice_subrange(blob, NONCE_SIZE, blob.len());
        let empty: Vec<u8> = Vec::new();
        let aad = associated_or(additional_data, empty.as_slice());
        match aead_decrypt(key.0.as_slice(), nonce, ciphertext, aad) {
            Some(plaintext) => Ok(plaintext),
            None => Err(decryption_failure()),
        }
    }

    /// The key as base64 text, which imports to the same key. Never fails.
    pub fn export_key(key: &AesGcmKey) -> (res: Result<String, Error>)
        ensures
            res matches Ok(text) && is_export_of(text@, key@) && import_key_spec(text@) == Some(
                key@,
            ),
    {
        proof {
            use_type_invariant(key);
        }
        Ok(encode_standard(key.0.as_slice()))
    }

    /// A key from base64 text. Fails with `KeyImportFailed` exactly when the
    /// text is not base64 or does not hold 32 bytes.
    pub fn import_key(key_data: &str) -> (res: Result<AesGcmKey, Error>)
        ensures
            match import_key_spec(key_data@) {
                Some(bytes) => res matches Ok(key) && key@ == bytes,
                None => res matches Err(e) && e is KeyImportFailed,
            },
    {
        match decode_standard(key_data) {
            Ok(bytes) => AesGcmKey::from_bytes(bytes),
            Err(e) => Err(import_failure(&e)),
        }
    }
}

impl SymmetricCryptographicSystem for AesGcmSystem {
    type Key = AesGcmKey;

    open spec fn key_bytes_spec(key: &AesGcmKey) -> Seq<u8> {
        key@
    }

    open spec fn is_key_spec(bytes: Seq<u8>) -> bool {
        bytes.len() == KEY_SIZE
    }

    open spec fn open_spec(key: Seq<u8>, ciphertext: Seq<u8>, aad: Seq<u8>) -> Option<Seq<u8>> {
        open_spec(key, ciphertext, aad)
    }

    fn generate_key(config: &CryptoConfig) -> (res: Result<AesGcmKey, Error>) {
        AesGcmSystem::generate_key(config)
    }

    fn encrypt(key: &AesGcmKey, plaintext: &[u8], additional_data: Option<&[u8]>) -> (res: Result<
        Base64String,
        Error,
    >)
        ensures
            res matches Ok(out) ==> is_encryption_of(
                out@,
                key@,
                plaintext@,
                associated(additional_data),
            ),
            res is Ok ==> within_limits(plaintext@, associated(additional_data)),
            res matches Err(e) ==> e is Operation || (e is EncryptionFailed && !within_limits(
                plaintext@,
                associated(additional_data),
            )),
    {
        AesGcmSystem::encrypt(key, plaintext, additional_data)
    }

    fn decrypt(key: &AesGcmKey, ciphertext_b64: &str, additional_data: Option<&[u8]>) -> (res:
        Result<Vec<u8>, Error>) {
        AesGcmSystem::decrypt(key, ciphertext_b64, additional_data)
    }

    fn export_key(key: &AesGcmKey) -> (res: Result<String, Error>)
        ensures
            res matches Ok(text) && is_export_of(text@, key@) && import_key_spec(text@) == Some(
                key@,
            ),
    {
        AesGcmSystem::export_key(key)
    }

    fn import_key(key_data: &str) -> (res: Result<AesGcmKey, Error>) {
        AesGcmSystem::import_key(key_data)
    }
}

/// Decryption inverts encryption: a ciphertext of `plaintext` under `key`
/// and `aad`, written as text, decrypts under the same key and associated
/// data to `plaintext`. The empty plaintext is no exception.
pub proof fn lemma_decrypt_inverts_encrypt(
    key: Seq<u8>,
    plaintext: Seq<u8>,
    aad: Seq<u8>,
    blob: Seq<u8>,
    text: Seq<char>,
)
    requires
        is_encryption_of(blob, key, plaintext, aad),
        base64_decode(text) == Some(blob),
    ensures
        decrypt_spec(key, text, aad) == Some(plaintext),
{
}

/// Import inverts export: the exported text of a 32-byte key imports to the
/// same bytes.
pub proof fn lemma_import_inverts_export(key: Seq<u8>, text: Seq<char>)
    requires
        key.len() == KEY_SIZE,
        is_export_of(text, key),
    ensures
        import_key_spec(text) == Some(key),
{
}

} // verus!

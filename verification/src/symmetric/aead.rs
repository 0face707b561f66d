//! AES-256-GCM, done by the `aes-gcm` crate.

use aes_gcm::aead::Aead;
use aes_gcm::aead::Payload;
use aes_gcm::Aes256Gcm;
use aes_gcm::KeyInit;
use vstd::prelude::*;

verus! {

/// Length of a key, in bytes.
pub const KEY_SIZE: usize = 32;

/// Length of a nonce, in bytes.
pub const NONCE_SIZE: usize = 12;

/// Length of the authentication tag that ends a ciphertext, in bytes.
pub const TAG_SIZE: usize = 16;

/// The longest plaintext, and the longest associated data, that the cipher
/// takes: 2^36 bytes.
pub const MAX_INPUT_LEN: u64 = 68719476736;

/// Whether the cipher takes a plaintext and associated data of these lengths.
pub open spec fn within_limits(plaintext: Seq<u8>, aad: Seq<u8>) -> bool {
    plaintext.len() <= MAX_INPUT_LEN && aad.len() <= MAX_INPUT_LEN
}

/// The ciphertext, tag included, that AES-256-GCM makes of `plaintext` and
/// `aad` under `key` and `nonce`; `None` where the cipher refuses.
pub uninterp spec fn aes256_gcm_encrypt(
    key: Seq<u8>,
    nonce: Seq<u8>,
    plaintext: Seq<u8>,
    aad: Seq<u8>,
) -> Option<Seq<u8>>;

/// The plaintext that AES-256-GCM recovers from `ciphertext` and `aad` under
/// `key` and `nonce`; `None` where it rejects them.
pub uninterp spec fn aes256_gcm_decrypt(
    key: Seq<u8>,
    nonce: Seq<u8>,
    ciphertext: Seq<u8>,
    aad: Seq<u8>,
) -> Option<Seq<u8>>;

/// Calls `Aead::encrypt` on an `Aes256Gcm` made from `key`. The crate's
/// error is a unit that tells nothing; it becomes `None`.
///
/// Trusted: the result is the cipher's output for these four inputs. The
/// cipher refuses exactly when the plaintext or the associated data is longer
/// than 2^36 bytes. The ciphertext is the plaintext's length plus the tag,
/// and the cipher decrypts it, under the same key, nonce and associated
/// data, to the plaintext. Key and nonce of another length make the crate
/// panic; the precondition keeps them out.
#[verifier::external_body]
pub(crate) fn aead_encrypt(key: &[u8], nonce: &[u8], plaintext: &[u8], aad: &[u8]) -> (res: Option<Vec<u8>>)
    requires
        key@.len() == KEY_SIZE,
        nonce@.len() == NONCE_SIZE,
    ensures
        res matches Some(ct) ==> aes256_gcm_encrypt(key@, nonce@, plaintext@, aad@) == Some(ct@),
        res is None ==> aes256_gcm_encrypt(key@, nonce@, plaintext@, aad@) is None,
        res is Some <==> within_limits(plaintext@, aad@),
        res matches Some(ct) ==> ct@.len() == plaintext@.len() + TAG_SIZE,
        res matches Some(ct) ==> aes256_gcm_decrypt(key@, nonce@, ct@, aad@) == Some(plaintext@),
{
    let cipher = Aes256Gcm::new(aes_gcm::Key::<Aes256Gcm>::from_slice(key));
    cipher.encrypt(aes_gcm::Nonce::from_slice(nonce), Payload { msg: plaintext, aad }).ok()
}

/// Calls `Aead::decrypt` on an `Aes256Gcm` made from `key`. The crate's
/// error is a unit that tells nothing; it becomes `None`.
///
/// Trusted: the result is the cipher's output for these four inputs; `None`
/// stands for a ciphertext that the cipher rejects. A ciphertext too short
/// to hold the tag is rejected, and a plaintext that comes out is the
/// ciphertext without its tag in length. Key and nonce of another length make
/// the crate panic; the precondition keeps them out.
#[verifier::external_body]
pub(crate) fn aead_decrypt(key: &[u8], nonce: &[u8], ciphertext: &[u8], aad: &[u8]) -> (res: Option<Vec<u8>>)
    requires
        key@.len() == KEY_SIZE,
        nonce@.len() == NONCE_SIZE,
    ensures
        res matches Some(pt) ==> aes256_gcm_decrypt(key@, nonce@, ciphertext@, aad@) == Some(pt@),
        res is None ==> aes256_gcm_decrypt(key@, nonce@, ciphertext@, aad@) is None,
        ciphertext@.len() < TAG_SIZE ==> res is None,
        res matches Some(pt) ==> pt@.len() + TAG_SIZE == ciphertext@.len(),
{
    let cipher = Aes256Gcm::new(aes_gcm::Key::<Aes256Gcm>::from_slice(key));
    cipher.decrypt(aes_gcm::Nonce::from_slice(nonce), Payload { msg: ciphertext, aad }).ok()
}

} // verus!

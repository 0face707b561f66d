//! The failures that the public operations report.

use vstd::prelude::*;
use vstd::string::*;

verus! {

/// A failure of a public operation. Each variant carries a message for
/// people; no message ever holds key material.
#[derive(Debug, Clone, PartialEq, Eq)]
pub enum Error {
    /// The randomness source or the setup of a primitive failed while a key
    /// was generated.
    GenerationFailed(String),
    /// The primitive refused to encrypt.
    EncryptionFailed(String),
    /// Decryption failed: the input was malformed, it was not authentic, or
    /// the key was not the one it was encrypted under. The three are
    /// reported alike.
    DecryptionFailed(String),
    /// A key could not be read from its text form.
    KeyImportFailed(String),
    /// A key could not be written to its text form.
    KeyExportFailed(String),
    /// No key is known under the identity or version asked for.
    KeyNotFound(String),
    /// The key version asked for has expired.
    KeyExpired(String),
    /// A key could not be sealed into a container.
    StorageSealFailed(String),
    /// A container could not be opened.
    StorageOpenFailed(String),
    /// A failure of an underlying library that fits no other kind.
    Operation(String),
}

impl Error {
    /// The message that the error carries.
    pub open spec fn message(&self) -> Seq<char> {
        match self {
            Error::GenerationFailed(m) => m@,
            Error::EncryptionFailed(m) => m@,
            Error::DecryptionFailed(m) => m@,
            Error::KeyImportFailed(m) => m@,
            Error::KeyExportFailed(m) => m@,
            Error::KeyNotFound(m) => m@,
            Error::KeyExpired(m) => m@,
            Error::StorageSealFailed(m) => m@,
            Error::StorageOpenFailed(m) => m@,
            Error::Operation(m) => m@,
        }
    }

    /// The words that name the error's kind.
    pub open spec fn label(&self) -> Seq<char> {
        match self {
            Error::GenerationFailed(_) => "Key generation failed"@,
            Error::EncryptionFailed(_) => "Encryption failed"@,
            Error::DecryptionFailed(_) => "Decryption failed"@,
            Error::KeyImportFailed(_) => "Key import failed"@,
            Error::KeyExportFailed(_) => "Key export failed"@,
            Error::KeyNotFound(_) => "Key not found"@,
            Error::KeyExpired(_) => "Key expired"@,
            Error::StorageSealFailed(_) => "Sealing the key container failed"@,
            Error::StorageOpenFailed(_) => "Opening the key container failed"@,
            Error::Operation(_) => "Operation failed"@,
        }
    }

    /// The error as one line of text: the kind's label, a colon and a space,
    /// then the message.
    pub fn to_string(&self) -> (text: String)
        ensures
            text@ == self.label() + ": "@ + self.message(),
    {
        let (label, message) = match self {
            Error::GenerationFailed(m) => ("Key generation failed", m),
            Error::EncryptionFailed(m) => ("Encryption failed", m),
            Error::DecryptionFailed(m) => ("Decryption failed", m),
            Error::KeyImportFailed(m) => ("Key import failed", m),
            Error::KeyExportFailed(m) => ("Key export failed", m),
            Error::KeyNotFound(m) => ("Key not found", m),
            Error::KeyExpired(m) => ("Key expired", m),
            Error::StorageSealFailed(m) => ("Sealing the key container failed", m),
            Error::StorageOpenFailed(m) => ("Opening the key container failed", m),
            Error::Operation(m) => ("Operation failed", m),
        };
        let mut text = String::from_str(label);
        text.append(": ");
        text.append(message.as_str());
        text
    }
}

/// The one error that every failed decryption returns, whatever its cause:
/// malformed input, a wrong key and a changed ciphertext cannot be told
/// apart by it.
pub open spec fn is_decryption_failure(e: Error) -> bool {
    e matches Error::DecryptionFailed(m) && m@ == "decryption failed"@
}

/// The error of a failed decryption.
pub fn decryption_failure() -> (e: Error)
    ensures
        is_decryption_failure(e),
{
    Error::DecryptionFailed(String::from_str("decryption failed"))
}

} // verus!

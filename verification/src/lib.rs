//! Authenticated encryption and key lifecycle management behind one interface.
//!
//! The crate frames ciphertexts and keys as text, composes two public-key
//! systems into a hybrid whose ciphertext needs both private keys, seals
//! private key material into containers that bind their metadata, and tracks
//! the versions of a key through rotation, retirement and expiry. The
//! arithmetic of the cipher, the text encoding and the randomness come from
//! audited crates; what this crate adds around them is verified.

use vstd::prelude::*;

pub mod asymmetric;
pub mod common;
pub mod rotation;
pub mod storage;
pub mod symmetric;

pub use asymmetric::hybrid::HybridCryptoSystem;
pub use asymmetric::traits::AsymmetricCryptographicSystem;
pub use common::errors::Error;
pub use common::utils::CryptoConfig;
pub use rotation::manager::KeyRotationManager;
pub use rotation::policy::RotationPolicy;
pub use storage::container::EncryptedKeyContainer;
pub use symmetric::systems::aes_gcm::AesGcmKey;
pub use symmetric::systems::aes_gcm::AesGcmSystem;

verus! {

/// The version of this library.
pub const VERSION: &'static str = "0.1.0";

} // verus!

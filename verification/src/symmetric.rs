//! Symmetric authenticated encryption.

pub mod aead;
pub mod systems;
pub mod traits;

//! The symmetric systems on offer.

pub mod aes_gcm;

//! Key versions and their rotation: when the active version of a key is
//! superseded, how long a retired version stays good for decryption, and
//! which version a caller gets.

pub mod chain;
pub mod manager;
pub mod policy;

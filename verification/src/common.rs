//! Types and helpers shared by every subsystem.

pub mod encoding;
pub mod errors;
pub mod framing;
pub mod random;
pub mod utils;

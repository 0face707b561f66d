//! Public-key systems: the interface they share, and the hybrid composite.

pub mod hybrid;
pub mod traits;

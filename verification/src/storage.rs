//! Keys at rest.

pub mod container;

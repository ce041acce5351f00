//! The entities that the library passes through as they are.

pub mod signers;

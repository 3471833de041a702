//! Error kinds and tokens, shared by every operation.

pub mod errors;
pub mod jwt;

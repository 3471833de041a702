//! Records, request payloads and the provider's descriptors.

pub mod auth;
pub mod server;
pub mod user;
pub mod vps;

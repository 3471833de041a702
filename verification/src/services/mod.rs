//! The operations of the panel.

pub mod auth_service;
pub mod flow;
pub mod server_service;
pub mod user_service;
pub mod vps_service;

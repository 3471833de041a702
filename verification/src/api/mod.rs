//! Operations that the HTTP layer composes from the services.

pub mod users;
pub mod vps;

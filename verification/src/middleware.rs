//! The access gate in front of the handlers.
pub mod auth;

//! Records kept in the store and the payloads of requests.
pub mod article;
pub mod user;

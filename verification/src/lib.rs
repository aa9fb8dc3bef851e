//! Authentication and ownership-scoped access control for an article
//! publishing service.

pub mod clock;
pub mod handlers;
pub mod identity;
pub mod laws;
pub mod middleware;
pub mod models;
pub mod password;
pub mod store;
pub mod token;

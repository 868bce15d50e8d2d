//! Credential authentication for a tool server: providers that turn an
//! opaque credential into a user identity, the session and linked-account
//! lookups behind the session provider, and the small pure helpers that the
//! server's configuration and example tools are built from.

pub mod auth;
pub mod clock;
pub mod config;
pub mod error;
pub mod text;
pub mod tools;

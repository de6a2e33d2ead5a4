//! Resolving a bearer credential to a user.

pub mod error;
pub mod header;
pub mod resolution;
pub mod scheme;
pub mod session;
pub mod validate;

//! The values that authentication hands to its callers.

pub mod users;

//! Work set aside for later.

pub mod session;

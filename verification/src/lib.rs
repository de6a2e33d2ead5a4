//! Bearer-token authentication: scheme dispatch, session freshness, user
//! assembly and role checks, with the decisions proved against their contracts.

pub mod auth;
pub mod models;
pub mod queue;
pub mod routes;
mod text;
pub mod time;

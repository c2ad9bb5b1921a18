//! A small user-management API library: record types for users, a fixed
//! service descriptor, and the handler logic behind each route.

pub mod handlers;
pub mod ids;
pub mod routes;
pub mod types;

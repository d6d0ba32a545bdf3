//! The HTTP port: its wire entities and its route logic.
pub mod entities;
pub mod routes;

//! A user-resource service core: the entity model, the error taxonomy, the
//! table of routes, and one handler per operation on the users relation.

pub mod config;
pub mod errors;
pub mod handlers;
pub mod ids;
pub mod models;
pub mod routes;
pub mod store;

pub mod auth;
pub mod models;
pub mod routes;
pub mod store;
pub mod blobs;
pub mod handlers;
pub mod guarantees;

//! The server side: authentication, the meal handlers, routing and start-up.

pub mod auth;
pub mod backend_types;
pub mod handlers;
pub mod ids;
pub mod jwt_db;
pub mod laws;
pub mod reply;
pub mod routing;
pub mod s3_interactions;
pub mod server;
pub mod startup;
pub mod store;
pub mod tokens;

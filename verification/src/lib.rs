//! The logic of a personal focus dashboard: the records that the dashboard
//! and its server exchange, the database statements the server issues and the
//! responses it builds from their results, and the dashboard's own state
//! machine with the requests it sends.
pub mod model;
pub mod text;
pub mod date;
pub mod server;
pub mod dashboard;

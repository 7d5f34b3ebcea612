//! An in-memory task service: a keyed task store, task validation, the
//! request handlers over it, and the decisions of the API-key and request
//! logging layers. Transport, configuration loading and log output live in
//! the application around this library.

pub mod clock;
pub mod config;
pub mod errors;
pub mod handlers;
pub mod ids;
pub mod middleware;
pub mod models;
pub mod state;

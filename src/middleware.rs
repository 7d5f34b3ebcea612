//! The layers that every request passes through before its handler.

pub mod auth;
pub mod logging;

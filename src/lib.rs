//! Builds the broker client configuration used by the websocket service.

pub mod config;
pub mod error;

//! Session lifecycle and command dispatch for a network switch's management API.
pub mod auth;
pub mod dispatch;
pub mod encode;
pub mod error;
pub mod http;
pub mod json;
pub mod requests;
pub mod ssh;
pub mod store;
pub mod token;
pub mod transport;

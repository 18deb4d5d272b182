//! Ethryx: a sidecar for an Ethereum execution-layer / consensus-layer pair.
//!
//! This is what the sidecar decides: where a request goes and what is passed on, when
//! the pair is ready and what is reported of it, which HTTP version the EL hop uses,
//! and what the poller and the listeners do next. Sockets, arguments and telemetry are
//! the program's.

pub mod config;
pub mod headers;
pub mod health;
pub mod json;
pub mod laws;
pub mod poll;
pub mod proxy;
pub mod reply;
pub mod serve;
pub mod state;
pub mod status;
pub mod text;
pub mod time;
pub mod upstream;
pub mod uri;
pub mod ws;

pub use config::Config;

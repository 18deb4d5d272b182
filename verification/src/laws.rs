//! What the functions of the library promise, said of their results: how a result
//! relates to what was given, and how the results of two calls relate. A result of a
//! function is whatever `call_ensures` admits for its arguments.

pub mod config;
pub mod headers;
pub mod health;
pub mod numbers;
pub mod proxy;
pub mod serve;
pub mod upstream;
pub mod ws;

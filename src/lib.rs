//! Core of a single-hop reverse proxy that carries the intended `Host` value
//! in a separate request header and forwards every request to one fixed
//! upstream authority.

pub mod config;
pub mod forward;
pub mod handler;
pub mod headers;
pub mod laws;

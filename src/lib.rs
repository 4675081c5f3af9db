//! A WireGuard session adapter for a host-driven VPN data path.
//!
//! The host owns packet buffers and the virtual interface; this library turns
//! outgoing IP packets into encrypted frames and incoming frames back into IP
//! packets, with a single tunnel engine per session.

pub mod buffers;
pub mod config;
pub mod engine;
pub mod logging;
pub mod pipeline;
pub mod plugin;
pub mod routes;

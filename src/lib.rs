//! Host-side plugin subsystem: plugin descriptors, a single-writer registry
//! with published snapshots, a WebAssembly execution adapter and a dispatcher
//! that marshals exported results into text.

pub mod auth;
pub mod config;
pub mod dispatch;
pub mod manager;
pub mod router_error;
pub mod token;
pub mod wasm;

//! Run-control and configuration console for a channel-state-information
//! collection device.
//!
//! The library holds the verified core: a bounded line buffer, a tokenizer
//! for `--name` / `--name=value` flags, the configuration record with its
//! validated mutations, the single-slot run-request signal, and the worker
//! lifecycle transitions.  Transport I/O and task scheduling live outside.

pub mod cmd_csi;
pub mod cmd_network;
pub mod cmd_start;
pub mod cmd_traffic;
pub mod cmd_wifi;
pub mod config;
pub mod interp;
pub mod laws;
pub mod render;
pub mod session;
pub mod signal;
pub mod text;


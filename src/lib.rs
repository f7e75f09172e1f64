//! Worker-node runtime library: task tracking and admission, backend
//! selection, peer directory and work groups, peer framing, coordinator
//! session decisions, and the descriptive types around them.

pub mod text;
pub mod error;
pub mod protocol;
pub mod types;
pub mod tracker;
pub mod backend;
pub mod peer;
pub mod groups;
pub mod framing;
pub mod mesh;
pub mod session;
pub mod executor;
pub mod supervisor;
pub mod gpu;
pub mod health;
pub mod version;
pub mod plugins;
pub mod persona;
pub mod logging;
pub mod config;
pub mod cli;

//! Decision logic of a small UDP/TCP file-transfer benchmark.
pub mod models;
pub mod text;
pub mod framing;
pub mod server;
pub mod cli;
pub mod modes;
pub mod transfer;

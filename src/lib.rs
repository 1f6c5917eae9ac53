//! Frecency bookkeeping: which identifiers were visited, how recently, and
//! how the bounded per-identifier visit log evolves.
//!
//! The integer side of the model lives here and is verified: visit ages,
//! the update plan that decides what a new visit writes and evicts, the
//! retry decision around schema creation, and the command-level selection
//! logic. The decay weights themselves are floating point and are computed
//! by the binary from the ages produced here.

pub mod cmd;
pub mod config;
pub mod engine;
pub mod store;

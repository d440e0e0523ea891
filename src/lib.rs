//! Tunglo: declarative multi-tunnel reverse SSH forwarding.
//!
//! The library holds the decisions of the daemon: configuration rules,
//! trust-on-first-use host-key verification, the per-connection relay state
//! machine and the per-tunnel supervisor lifecycle. The binary around it
//! performs the network and file I/O and feeds the results back in.
pub mod config;
pub mod document;
pub mod error;
pub mod handler;
pub mod known_hosts;
pub mod relay;
pub mod storage;
pub mod tunnel;

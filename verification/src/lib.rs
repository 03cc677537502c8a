//! Verified core of the RTK usage-event synchroniser.
pub mod cli;
pub mod client;
pub mod config;
pub mod env;
pub mod machine;
pub mod rtkdb;
pub mod service;
pub mod state;
pub mod syncer;
pub mod text;
pub mod update;

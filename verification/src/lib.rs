//! Verified core of a command-line client for Fabric notebooks.
pub mod text;
pub mod json;
pub mod json_ops;
pub mod encoding;
pub mod auth;
pub mod client;
pub mod notebook;
pub mod cells;
pub mod session;
pub mod schedule;
pub mod display;

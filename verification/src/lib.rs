//! Verified core of a host-based intrusion-prevention agent: access-log
//! screening, per-IP threat memory, verdict framing and defense decisions.
pub mod text;
pub mod parser;
pub mod ingestion;
pub mod memory;
pub mod tools;
pub mod config;
pub mod cli;
pub mod model;
pub mod bench;
pub mod sentinel;

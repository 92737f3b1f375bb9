//! The decisions of the diagnostics bootstrap.
//!
//! Opening the log file, reading the environment and installing the process-wide
//! subscriber are the caller's work. This module decides what is to be opened,
//! which filter applies, which layers are installed, and whether a bootstrap
//! may still take place.

pub mod bootstrap;
pub mod filter;

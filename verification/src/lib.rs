//! Provisioning logic for an editor's language-server binary.
//!
//! The crate resolves the executable either from the local search path or by
//! fetching a matching pre-built release archive, caches installed versions
//! on disk by version tag, and assembles the final launch command. All
//! decisions are made here, as verified code over plain values; the host
//! editor's glue performs the actual I/O and feeds the results back in.

pub mod platform;
pub mod paths;
pub mod release;
pub mod config;
pub mod command;
pub mod machine;
pub mod laws;

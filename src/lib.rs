//! Orchestration for a command-line MPQ archive tool: entry-name
//! normalization, host-path construction, glob filtering, listing,
//! extraction planning with per-entry failure reports, and packing a
//! directory tree into an archive build.

pub mod error;
pub mod extract;
pub mod filter;
pub mod listing;
pub mod pack;
pub mod path;

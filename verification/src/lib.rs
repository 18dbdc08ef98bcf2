//! Verified core of a transparent encoding-conversion virtual filesystem.

pub mod text;
pub mod error;
pub mod encoding;
pub mod detector;
pub mod filter;
pub mod cache;
pub mod config;
pub mod vfs;
pub mod mounts;
pub mod git;
pub mod host;

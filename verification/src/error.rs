//! The error type of the virtual filesystem.

use vstd::prelude::*;

verus! {

/// Errors raised by the virtual filesystem. Messages are kept as text.
#[derive(Debug, Clone, PartialEq, Eq)]
pub enum VfsError {
    /// An I/O failure, with its message.
    Io(String),
    /// The path does not exist (or is hidden).
    NotFound(String),
    /// A failure while converting text.
    Encoding(String),
    /// A configuration problem.
    Config(String),
    /// A mounting problem.
    Mount(String),
}

} // verus!

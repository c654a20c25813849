//! The standard stream that logs go to.
use vstd::prelude::*;

verus! {

/// A stream to write logs to.
#[derive(Debug, Clone, Copy, PartialEq, Eq, Structural)]
pub enum OutputStream {
    /// The standard output stream.
    Stdout,
    /// The standard error stream.
    Stderr,
}

} // verus!

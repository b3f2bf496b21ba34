//! The ways in which a terminal operation fails.

use vstd::prelude::*;

verus! {

/// Why a terminal operation did not succeed.
#[derive(Clone, Copy, Debug, PartialEq, Eq, Structural)]
pub enum ReadlineError {
    /// The input stream is closed.
    Eof,
    /// Raw mode was asked for on an input that is not a terminal.
    NotATerminal,
    /// A system call failed; the value is its error number.
    Os(i32),
    /// Writing to or flushing the output failed; the value is the error number.
    Io(i32),
}

} // verus!

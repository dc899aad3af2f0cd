//! What a database or file operation reports when it fails.
use vstd::prelude::*;

verus! {

/// The kinds of failure the application tells apart.
#[derive(Clone, Copy, Debug, PartialEq, Eq, Structural)]
pub enum ErrorKind {
    /// A name is already taken.
    Duplicate,
    /// Something still refers to what was to be changed.
    Conflict,
    NotFound,
    Invalid,
    Io,
    Other,
}

/// A failure as it is shown to the user.
#[derive(Debug)]
pub struct DbError {
    pub kind: ErrorKind,
    pub message: String,
}

} // verus!

//! The errors of a generation run.

use vstd::prelude::*;
use vstd::string::StringExecFns;

verus! {

/// What went wrong. Every kind ends the run.
#[derive(Debug, Clone, Copy, PartialEq, Eq, Structural)]
pub enum ErrorKind {
    /// An unknown set size, shard type or flavor, or a time that cannot be
    /// written out.
    InvalidArgument,
    /// The shard type is not available for the chosen flavor.
    IncompatibleConfiguration,
    /// The target file or directory is already there.
    PathConflict,
    /// A directory could not be created or a file not written.
    IoFailure,
    /// The flavor does not define the requested operation.
    OperationNotSupported,
}

/// An error: its kind, and one message for the user.
#[derive(Debug, PartialEq, Eq)]
pub struct GenError {
    pub kind: ErrorKind,
    pub message: String,
}

impl Clone for GenError {
    fn clone(&self) -> (e: Self)
        ensures
            e == *self,
    {
        GenError { kind: self.kind, message: self.message.clone() }
    }
}

impl GenError {
    /// An error of the given kind with the given message.
    pub fn new(kind: ErrorKind, message: String) -> (e: GenError)
        ensures
            e.kind == kind,
            e.message@ == message@,
    {
        GenError { kind, message }
    }

    /// The kind of this error.
    pub fn kind(&self) -> (k: ErrorKind)
        ensures
            k == self.kind,
    {
        self.kind
    }

    /// The message of this error.
    pub fn message(&self) -> (m: &str)
        ensures
            m@ == self.message@,
    {
        self.message.as_str()
    }

    /// Whether this error has the given kind and message.
    pub open spec fn is(&self, kind: ErrorKind, message: Seq<char>) -> bool {
        self.kind == kind && self.message@ == message
    }
}

/// The message for a file that could not be created: the cause, then the
/// path in quotes.
pub open spec fn create_failed_text(cause: Seq<char>, path: Seq<char>) -> Seq<char> {
    cause + ": '"@ + path + "'"@
}

/// The error for a file that could not be created. A file that is there
/// already is a conflict, since no file is ever written over; anything else
/// is a failure of input and output.
pub fn create_failed(already_exists: bool, cause: &str, path: &str) -> (e: GenError)
    ensures
        e.is(
            if already_exists {
                ErrorKind::PathConflict
            } else {
                ErrorKind::IoFailure
            },
            create_failed_text(cause@, path@),
        ),
{
    let mut message = String::new();
    message.append(cause);
    message.append(": '");
    message.append(path);
    message.append("'");
    assert(message@ =~= create_failed_text(cause@, path@));
    let kind = if already_exists {
        ErrorKind::PathConflict
    } else {
        ErrorKind::IoFailure
    };
    GenError::new(kind, message)
}

/// The error for a directory that could not be created or a text that
/// could not be written: a failure of input and output, with its cause as
/// the message.
pub fn io_failed(cause: &str) -> (e: GenError)
    ensures
        e.is(ErrorKind::IoFailure, cause@),
{
    GenError::new(ErrorKind::IoFailure, cause.to_owned())
}

} // verus!

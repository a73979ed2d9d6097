//! Errors of system calls and of pseudo-terminal operations.

use vstd::prelude::*;

verus! {

/// Declares `std::io::ErrorKind`, which the library carries and never looks into.
#[verifier::external_type_specification]
#[verifier::external_body]
pub struct ExIoErrorKind(std::io::ErrorKind);

/// The category of an I/O error.
#[derive(Debug, Clone, Copy, PartialEq, Eq)]
pub enum ErrorKind {
    /// Data that cannot be made sense of.
    InvalidData,
    /// A write into a pseudo-terminal that is closed.
    BrokenPipe,
    /// An operation that this pseudo-terminal does not offer.
    Unsupported,
    /// Any failure without a category of its own.
    Other,
    /// The category that the system reported.
    System(std::io::ErrorKind),
}

/// An I/O error.
#[derive(Debug, PartialEq, Eq)]
pub enum IoError {
    /// The error code that a system call left.
    Os(i32),
    /// A bare category.
    Simple(ErrorKind),
    /// A category with a message.
    Custom {
        /// The category.
        kind: ErrorKind,
        /// The message.
        message: String,
    },
}

/// An error of a pseudo-terminal operation.
#[derive(Debug, PartialEq, Eq)]
pub enum PtyError {
    /// The pseudo-terminal could not be created.
    Create(IoError),
    /// Input or output failed.
    Io(IoError),
    /// The window size could not be set.
    Resize(IoError),
    /// The terminal's attributes could not be read.
    GetAttributes(IoError),
    /// The pseudo-terminal is closed.
    Closed,
}

/// What a failed system call reported, with the two codes that mean "try again"
/// told apart.
#[derive(Debug, Clone, Copy, PartialEq, Eq, Structural)]
pub enum Errno {
    /// `EAGAIN`: the descriptor is not ready.
    Again,
    /// `EINTR`: a signal interrupted the call before any byte moved.
    Interrupted,
    /// Any other error code.
    Other(i32),
}

impl IoError {
    /// Whether this is the error of category `kind` with the text `message`.
    pub open spec fn is_custom(self, kind: ErrorKind, message: Seq<char>) -> bool {
        &&& self matches IoError::Custom { kind: k, message: m }
        &&& k == kind
        &&& m@ == message
    }

    /// The error of category `kind` with the text `message`.
    pub fn custom(kind: ErrorKind, message: &str) -> (error: IoError)
        ensures
            error.is_custom(kind, message@),
    {
        IoError::Custom { kind, message: message.to_owned() }
    }
}

/// A custom error has the category and the text that it was made with.
pub proof fn law_custom_error_has_its_kind_and_text(kind: ErrorKind, text: &str, error: IoError)
    requires
        call_ensures(IoError::custom, (kind, text), error),
    ensures
        error matches IoError::Custom { kind: k, message } && k == kind && message@ == text@,
{
}

} // verus!

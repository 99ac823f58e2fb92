//! The errors that end a handshake.
use vstd::prelude::*;

verus! {

/// What kind of failure an error stands for, as far as the protocol tells
/// kinds apart: a refused connection has a reply code of its own.
#[derive(Clone, Copy, Debug, PartialEq, Eq, Structural)]
pub enum ErrorKind {
    ConnectionRefused,
    Other,
}

/// An error, with the text that describes it.
#[derive(Debug, PartialEq, Eq)]
pub struct Error {
    pub kind: ErrorKind,
    pub message: String,
}

/// The mathematical value of an [`Error`].
#[verifier::ext_equal]
pub struct ErrorView {
    pub kind: ErrorKind,
    pub message: Seq<char>,
}

impl View for Error {
    type V = ErrorView;

    open spec fn view(&self) -> ErrorView {
        ErrorView { kind: self.kind, message: self.message@ }
    }
}

/// The error of kind `Other` that `desc` describes.
pub open spec fn other_error(desc: Seq<char>) -> ErrorView {
    ErrorView { kind: ErrorKind::Other, message: desc }
}

/// Makes an error of kind `Other` out of its description.
pub fn other(desc: &str) -> (error: Error)
    ensures
        error@ == other_error(desc@),
        error.kind == ErrorKind::Other,
        error.message@ == desc@,
{
    Error { kind: ErrorKind::Other, message: desc.to_owned() }
}

} // verus!

//! The crate's error type and the wire shape of an error reply.

use vstd::prelude::*;

verus! {

/// Abstract value of an [`AppError`]: the variant plus the view of the
/// carried detail string.
pub enum AppErrorV {
    NotFound(Seq<char>),
    ConflictError(Seq<char>),
    PermissionDenyError(Seq<char>),
    InvalidError(Seq<char>),
    DecodeError(Seq<char>),
    GeneralError(Seq<char>),
}

/// Errors surfaced by the library.
///
/// `InvalidError` carries an input that was recognised but rejected (an
/// unknown feed channel, an unknown operation tag); `DecodeError` carries a
/// description of a malformed feed payload.
#[derive(Debug, Clone, PartialEq)]
pub enum AppError {
    NotFound(String),
    ConflictError(String),
    PermissionDenyError(String),
    InvalidError(String),
    DecodeError(String),
    GeneralError(String),
}

impl View for AppError {
    type V = AppErrorV;

    open spec fn view(&self) -> AppErrorV {
        match self {
            AppError::NotFound(s) => AppErrorV::NotFound(s@),
            AppError::ConflictError(s) => AppErrorV::ConflictError(s@),
            AppError::PermissionDenyError(s) => AppErrorV::PermissionDenyError(s@),
            AppError::InvalidError(s) => AppErrorV::InvalidError(s@),
            AppError::DecodeError(s) => AppErrorV::DecodeError(s@),
            AppError::GeneralError(s) => AppErrorV::GeneralError(s@),
        }
    }
}

/// The body of an error reply sent to a client.
#[derive(Debug, Clone, PartialEq)]
pub struct ErrorOutput {
    pub error: String,
}

impl ErrorOutput {
    pub fn new(error: String) -> (r: Self)
        ensures
            r.error == error,
    {
        Self { error }
    }
}

} // verus!

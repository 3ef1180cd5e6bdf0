//! Ship errors.

use vstd::prelude::*;
use vstd::string::StringExecFns;

verus! {

/// What kind of failure a ship error is.
#[derive(Clone, Copy, Debug, PartialEq, Eq, Structural)]
pub enum ErrorKind {
    IoError,
    DbError,
    CredentialError,
    UnexpectedMsg,
    Other,
}

/// The description of each kind of error.
pub open spec fn kind_text(k: ErrorKind) -> Seq<char> {
    match k {
        ErrorKind::IoError => "An internal IO error occurred."@,
        ErrorKind::DbError => "An internal database error occurred."@,
        ErrorKind::CredentialError => "Credential error."@,
        ErrorKind::UnexpectedMsg => "An unexpected message was received."@,
        ErrorKind::Other => "Other, unspecified error. The developers should be more specific."@,
    }
}

impl ErrorKind {
    /// The description of this kind of error.
    pub fn to_str(self) -> (r: &'static str)
        ensures
            r@ == kind_text(self),
    {
        match self {
            ErrorKind::IoError => "An internal IO error occurred.",
            ErrorKind::DbError => "An internal database error occurred.",
            ErrorKind::CredentialError => "Credential error.",
            ErrorKind::UnexpectedMsg => "An unexpected message was received.",
            ErrorKind::Other => "Other, unspecified error. The developers should be more specific.",
        }
    }
}

/// A ship error: its kind and the description of the error that caused
/// it.
#[derive(Clone, Debug)]
pub struct Error {
    pub kind: ErrorKind,
    pub sub_error: String,
}

impl Error {
    /// An error of the given kind caused by the error described by `e`.
    pub fn new(kind: ErrorKind, e: String) -> (r: Error)
        ensures
            r.kind == kind,
            r.sub_error@ == e@,
    {
        Error { kind, sub_error: e }
    }

    /// The description of the error's kind.
    pub fn description(&self) -> (r: &'static str)
        ensures
            r@ == kind_text(self.kind),
    {
        self.kind.to_str()
    }

    /// The error's text: `ShipError: <description>.` and, on a second line,
    /// `Caused by: <cause>`.
    pub fn to_string(&self) -> (r: String)
        ensures
            r@ == "ShipError: "@ + kind_text(self.kind) + ".\nCaused by: "@ + self.sub_error@,
    {
        String::from_str("ShipError: ").concat(self.description()).concat(".\nCaused by: ").concat(
            self.sub_error.as_str(),
        )
    }
}

} // verus!

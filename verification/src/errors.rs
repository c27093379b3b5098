//! Errors of the library.
use vstd::prelude::*;

verus! {

/// Errors the library reports.
#[derive(Debug, Clone, Copy, PartialEq, Eq)]
pub enum ReaperError {
    UserAborted,
    Unexpected,
    InvalidObject(&'static str),
    UnsuccessfulOperation(&'static str),
    NullPtr,
    Str(&'static str),
}

impl ReaperError {
    /// The message of the error.
    pub fn message(&self) -> (r: String)
        ensures
            r@ == match self {
                ReaperError::Unexpected => "Unexpected error happened."@,
                ReaperError::UserAborted => "User aborted operation."@,
                ReaperError::InvalidObject(s) => "Invalid object: "@ + s@,
                ReaperError::UnsuccessfulOperation(s) => "Unsuccessful operation: "@ + s@,
                ReaperError::NullPtr => "NullPtr!"@,
                ReaperError::Str(s) => s@,
            },
    {
        match self {
            ReaperError::Unexpected => "Unexpected error happened.".to_owned(),
            ReaperError::UserAborted => "User aborted operation.".to_owned(),
            ReaperError::InvalidObject(s) => {
                let mut m = "Invalid object: ".to_owned();
                m.append(*s);
                m
            },
            ReaperError::UnsuccessfulOperation(s) => {
                let mut m = "Unsuccessful operation: ".to_owned();
                m.append(*s);
                m
            },
            ReaperError::NullPtr => "NullPtr!".to_owned(),
            ReaperError::Str(s) => (*s).to_owned(),
        }
    }
}

} // verus!

//! The errors that the cluster answers with, its own and those of the device.

use vstd::prelude::*;

verus! {

/// Why a read, a write or a command was refused.
///
/// The first four are the cluster's own. A device may fail a call with any code,
/// and so may the decoder of a request; the cluster hands it on as it is.
#[derive(Clone, Copy, Debug, PartialEq, Eq, Structural)]
pub enum ErrorCode {
    /// The attribute is not served.
    AttributeNotFound,
    /// The command is not served.
    CommandNotFound,
    /// The value lies outside the constraints of the attribute.
    ConstraintError,
    /// The command is served, but not with these arguments.
    InvalidCommand,
    /// The device could not carry the change out.
    Failure,
    /// Any other reason, by the number that stands for it.
    Other(u32),
}

/// An error, identified by its code.
#[derive(Clone, Copy, Debug, PartialEq, Eq, Structural)]
pub struct Error {
    pub code: ErrorCode,
}

impl Error {
    /// The error with the given code.
    pub fn new(code: ErrorCode) -> (error: Self)
        ensures
            error.code == code,
    {
        Error { code }
    }

    /// The code that identifies this error.
    pub fn code(&self) -> (code: ErrorCode)
        ensures
            code == self.code,
    {
        self.code
    }
}

} // verus!

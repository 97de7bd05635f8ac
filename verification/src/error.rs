//! The creation workflow's error taxonomy and the structured body that each
//! error is reported with.

use vstd::prelude::*;

verus! {

/// Why a creation attempt failed.
#[derive(Clone, Copy, PartialEq, Eq, Structural, Debug)]
pub enum CreationError {
    /// A required field (`title`, `author` or `pages`) was absent.
    ValidationError,
    /// A stored book already carries the requested title.
    ConflictError,
    /// The request cannot proceed: the store was found in an unusable state,
    /// or the freshly drawn identifier collided with a stored one.
    InternalError,
}

/// The structured body a failure is reported with: a human-readable message
/// and the status code as text.
pub struct ErrorBody {
    pub message: String,
    pub code: String,
}

impl ErrorBody {
    pub fn new(message: String, code: String) -> (r: ErrorBody)
        ensures
            r.message@ == message@,
            r.code@ == code@,
    {
        ErrorBody { message, code }
    }
}

impl CreationError {
    /// The exact message and code that each failure is reported with.
    /// Internal failures carry only a generic message.
    pub fn body(&self) -> (r: ErrorBody)
        ensures
            *self == CreationError::ValidationError ==> r.message@ == "Invalid params"@ && r.code@
                == "400"@,
            *self == CreationError::ConflictError ==> r.message@ == "Book already exists"@
                && r.code@ == "422"@,
            *self == CreationError::InternalError ==> r.message@ == "Internal server error"@
                && r.code@ == "500"@,
    {
        match self {
            CreationError::ValidationError => ErrorBody::new(
                "Invalid params".to_owned(),
                "400".to_owned(),
            ),
            CreationError::ConflictError => ErrorBody::new(
                "Book already exists".to_owned(),
                "422".to_owned(),
            ),
            CreationError::InternalError => ErrorBody::new(
                "Internal server error".to_owned(),
                "500".to_owned(),
            ),
        }
    }
}

} // verus!

//! The closed set of failure kinds, and the status each one is answered with.

use vstd::prelude::*;
use vstd::string::*;

verus! {

/// Status answered for a failure on the server's side.
pub const STATUS_INTERNAL_SERVER_ERROR: u16 = 500;

/// Status answered for a submission that could not be interpreted.
pub const STATUS_BAD_REQUEST: u16 = 400;

/// Status answered to a caller without the needed identity.
pub const STATUS_FORBIDDEN: u16 = 403;

/// Why a post could not be taken in.
#[derive(Debug, Clone, Copy, PartialEq, Eq, Structural)]
pub enum NewPostError {
    /// The store of posts failed.
    QueryError,
    /// A file could not be created, opened or written while streaming.
    FileUploadError,
    /// The upload directory could not be resolved or created.
    FileUploadPathError,
    /// The submitted text or fields could not be interpreted.
    ParseError,
    /// The caller has no authenticated identity.
    PermissionDenied,
}

impl NewPostError {
    /// The status of each kind, as a number.
    pub open spec fn spec_status_code(&self) -> u16 {
        match self {
            NewPostError::QueryError => STATUS_INTERNAL_SERVER_ERROR,
            NewPostError::FileUploadError => STATUS_INTERNAL_SERVER_ERROR,
            NewPostError::FileUploadPathError => STATUS_INTERNAL_SERVER_ERROR,
            NewPostError::ParseError => STATUS_BAD_REQUEST,
            NewPostError::PermissionDenied => STATUS_FORBIDDEN,
        }
    }

    /// The status this failure is answered with.
    #[verifier::when_used_as_spec(spec_status_code)]
    pub fn status_code(&self) -> (code: u16)
        ensures
            code == self.spec_status_code(),
    {
        match self {
            NewPostError::QueryError => STATUS_INTERNAL_SERVER_ERROR,
            NewPostError::FileUploadError => STATUS_INTERNAL_SERVER_ERROR,
            NewPostError::ParseError => STATUS_BAD_REQUEST,
            NewPostError::FileUploadPathError => STATUS_INTERNAL_SERVER_ERROR,
            NewPostError::PermissionDenied => STATUS_FORBIDDEN,
        }
    }

    /// The text of each kind, as shown to the caller.
    pub open spec fn spec_message(&self) -> Seq<char> {
        match self {
            NewPostError::QueryError => "An internal error occured. Please try again later"@,
            NewPostError::FileUploadError => "Error uploading your file"@,
            NewPostError::FileUploadPathError => "File upload path error"@,
            NewPostError::ParseError => "Error parsing submitted fields"@,
            NewPostError::PermissionDenied => "User does not have permission to make post"@,
        }
    }

    /// The text this failure is answered with.
    pub fn message(&self) -> (text: String)
        ensures
            text@ == self.spec_message(),
    {
        match self {
            NewPostError::QueryError => String::from_str(
                "An internal error occured. Please try again later",
            ),
            NewPostError::FileUploadError => String::from_str("Error uploading your file"),
            NewPostError::FileUploadPathError => String::from_str("File upload path error"),
            NewPostError::ParseError => String::from_str("Error parsing submitted fields"),
            NewPostError::PermissionDenied => String::from_str(
                "User does not have permission to make post",
            ),
        }
    }
}

/// Why an account could not be registered.
#[derive(Debug, Clone, Copy, PartialEq, Eq, Structural)]
pub enum NewUserError {
    /// The store of accounts failed.
    QueryError,
    /// The submitted fields could not be interpreted.
    ParseError,
}

impl NewUserError {
    /// The status of each kind, as a number.
    pub open spec fn spec_status_code(&self) -> u16 {
        match self {
            NewUserError::QueryError => STATUS_INTERNAL_SERVER_ERROR,
            NewUserError::ParseError => STATUS_BAD_REQUEST,
        }
    }

    /// The status this failure is answered with.
    #[verifier::when_used_as_spec(spec_status_code)]
    pub fn status_code(&self) -> (code: u16)
        ensures
            code == self.spec_status_code(),
    {
        match self {
            NewUserError::QueryError => STATUS_INTERNAL_SERVER_ERROR,
            NewUserError::ParseError => STATUS_BAD_REQUEST,
        }
    }

    /// The text of each kind, as shown to the caller.
    pub open spec fn spec_message(&self) -> Seq<char> {
        match self {
            NewUserError::QueryError => "An internal error occured. Please try again later"@,
            NewUserError::ParseError => "Error parsing submitted fields"@,
        }
    }

    /// The text this failure is answered with.
    pub fn message(&self) -> (text: String)
        ensures
            text@ == self.spec_message(),
    {
        match self {
            NewUserError::QueryError => String::from_str(
                "An internal error occured. Please try again later",
            ),
            NewUserError::ParseError => String::from_str("Error parsing submitted fields"),
        }
    }
}

/// Every failure of a post is answered with a status of the client's or of
/// the server's side, and with the client's side exactly where the
/// submission or the caller is at fault.
pub proof fn lemma_status_by_fault(error: NewPostError)
    ensures
        error.spec_status_code() == STATUS_BAD_REQUEST <==> error == NewPostError::ParseError,
        error.spec_status_code() == STATUS_FORBIDDEN <==> error == NewPostError::PermissionDenied,
        error.spec_status_code() == STATUS_INTERNAL_SERVER_ERROR <==> (error
            == NewPostError::QueryError || error == NewPostError::FileUploadError || error
            == NewPostError::FileUploadPathError),
{
}

} // verus!

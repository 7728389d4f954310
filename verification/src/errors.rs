//! The error kinds the authentication core reports, with the HTTP status and
//! the message each one maps to.

use vstd::prelude::*;
use vstd::string::StringExecFns;

verus! {

/// What went wrong while serving a request.
///
/// `Unauthorized` is a transport problem (absent, malformed, expired or
/// forged token); `InvalidCredentials` is a failed login. The two are never
/// merged.
#[derive(Debug, PartialEq, Eq)]
pub enum UserError {
    Unauthorized,
    InvalidCredentials,
    UserNotFoundError,
    EmailAlreadyExistsError { email: String },
    ValidationError { message: String },
    InternalError,
}

impl UserError {
    /// The HTTP status code that stands for this error.
    pub open spec fn spec_status_code(self) -> int {
        match self {
            UserError::EmailAlreadyExistsError { .. } => 400,
            UserError::ValidationError { .. } => 400,
            UserError::InvalidCredentials => 401,
            UserError::Unauthorized => 401,
            UserError::UserNotFoundError => 404,
            UserError::InternalError => 500,
        }
    }

    /// The text shown to the client for this error.
    pub open spec fn spec_message(self) -> Seq<char> {
        match self {
            UserError::Unauthorized => "Unauthorized."@,
            UserError::InvalidCredentials => "Invalid credentials."@,
            UserError::UserNotFoundError => "User does not exist."@,
            UserError::EmailAlreadyExistsError { email } => "Email "@ + email@
                + " is already taken."@,
            UserError::ValidationError { message } => message@,
            UserError::InternalError => "An internal error occurred. Please try again later."@,
        }
    }

    pub fn status_code(&self) -> (code: u16)
        ensures
            code == self.spec_status_code(),
    {
        match self {
            UserError::EmailAlreadyExistsError { .. } => 400,
            UserError::ValidationError { .. } => 400,
            UserError::InvalidCredentials => 401,
            UserError::Unauthorized => 401,
            UserError::UserNotFoundError => 404,
            UserError::InternalError => 500,
        }
    }

    pub fn to_string(&self) -> (text: String)
        ensures
            text@ == self.spec_message(),
    {
        match self {
            UserError::Unauthorized => String::from_str("Unauthorized."),
            UserError::InvalidCredentials => String::from_str("Invalid credentials."),
            UserError::UserNotFoundError => String::from_str("User does not exist."),
            UserError::EmailAlreadyExistsError { email } => String::from_str("Email ").concat(
                email.as_str(),
            ).concat(" is already taken."),
            UserError::ValidationError { message } => message.clone(),
            UserError::InternalError => String::from_str(
                "An internal error occurred. Please try again later.",
            ),
        }
    }
}

} // verus!

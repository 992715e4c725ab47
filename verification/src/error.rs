//! The failures that the library reports, one closed list per layer.

use crate::utils::NumberError;
use vstd::prelude::*;
use vstd::string::StringExecFns;

verus! {

/// Why the provider turned the sign-in down.
#[derive(Clone, Copy, Debug, PartialEq, Eq, Structural)]
pub enum Rejection {
    /// The user refused the request.
    Declined,
    /// The provider did not recognise the device code.
    BadVerificationCode,
    /// The device code expired, or the polling window closed.
    Expired,
}

/// How a sign-in attempt can fail.
#[derive(Clone, Debug, PartialEq, Eq)]
pub enum AuthenticationError {
    /// The transport failed before any response arrived; holds the cause.
    NetworkError(String),
    /// The provider rejected the sign-in.
    AuthorizationFailed(Rejection),
    /// A response matched no known shape; holds the raw body.
    UnexpectedResponse(String),
    /// The credential store failed; holds the cause.
    StoreError(String),
    /// The caller gave the attempt up.
    Cancelled,
}

/// The mathematical model of an [`AuthenticationError`].
pub enum Failure {
    NetworkError(Seq<char>),
    AuthorizationFailed(Rejection),
    UnexpectedResponse(Seq<char>),
    StoreError(Seq<char>),
    Cancelled,
}

impl View for AuthenticationError {
    type V = Failure;

    open spec fn view(&self) -> Failure {
        match *self {
            AuthenticationError::NetworkError(cause) => Failure::NetworkError(cause@),
            AuthenticationError::AuthorizationFailed(why) => Failure::AuthorizationFailed(why),
            AuthenticationError::UnexpectedResponse(body) => Failure::UnexpectedResponse(body@),
            AuthenticationError::StoreError(cause) => Failure::StoreError(cause@),
            AuthenticationError::Cancelled => Failure::Cancelled,
        }
    }
}

impl Failure {
    /// The text that describes the failure to a reader.
    pub open spec fn message(self) -> Seq<char> {
        match self {
            Failure::NetworkError(cause) => "Network error: "@ + cause,
            Failure::AuthorizationFailed(_) => "Authentication failed"@,
            Failure::UnexpectedResponse(body) => "Unexpected response: "@ + body,
            Failure::StoreError(cause) => "Credential store error: "@ + cause,
            Failure::Cancelled => "Authentication cancelled"@,
        }
    }
}

impl AuthenticationError {
    /// The text that describes the failure to a reader.
    pub fn message(&self) -> (text: String)
        ensures
            text@ == self@.message(),
    {
        match self {
            AuthenticationError::NetworkError(cause) => String::from_str("Network error: ").concat(
                cause.as_str(),
            ),
            AuthenticationError::AuthorizationFailed(_) => String::from_str(
                "Authentication failed",
            ),
            AuthenticationError::UnexpectedResponse(body) => String::from_str(
                "Unexpected response: ",
            ).concat(body.as_str()),
            AuthenticationError::StoreError(cause) => String::from_str(
                "Credential store error: ",
            ).concat(cause.as_str()),
            AuthenticationError::Cancelled => String::from_str("Authentication cancelled"),
        }
    }
}

/// The text that describes why a text is no number.
pub open spec fn number_message(error: NumberError) -> Seq<char> {
    match error {
        NumberError::Empty => "cannot parse integer from empty string"@,
        NumberError::InvalidDigit => "invalid digit found in string"@,
        NumberError::Overflow => "number too large to fit in target type"@,
    }
}

/// A failure of any layer of the library.
#[derive(Clone, Debug, PartialEq, Eq)]
pub enum ErrorKind {
    /// A sign-in attempt failed.
    Authentication(AuthenticationError),
    /// A text was no number.
    Number(NumberError),
}

/// Any failure that the library reports.
#[derive(Clone, Debug, PartialEq, Eq)]
pub struct Error(pub ErrorKind);

/// The mathematical model of an [`Error`].
pub enum ErrorModel {
    Authentication(Failure),
    Number(NumberError),
}

impl ErrorModel {
    /// The text that describes the failure to a reader: that of the failure
    /// inside.
    pub open spec fn message(self) -> Seq<char> {
        match self {
            ErrorModel::Authentication(failure) => failure.message(),
            ErrorModel::Number(error) => number_message(error),
        }
    }
}

impl View for Error {
    type V = ErrorModel;

    open spec fn view(&self) -> ErrorModel {
        match self.0 {
            ErrorKind::Authentication(error) => ErrorModel::Authentication(error@),
            ErrorKind::Number(error) => ErrorModel::Number(error),
        }
    }
}

impl Error {
    /// The text that describes the failure to a reader.
    pub fn message(&self) -> (text: String)
        ensures
            text@ == self@.message(),
    {
        match &self.0 {
            ErrorKind::Authentication(error) => error.message(),
            ErrorKind::Number(NumberError::Empty) => String::from_str(
                "cannot parse integer from empty string",
            ),
            ErrorKind::Number(NumberError::InvalidDigit) => String::from_str(
                "invalid digit found in string",
            ),
            ErrorKind::Number(NumberError::Overflow) => String::from_str(
                "number too large to fit in target type",
            ),
        }
    }
}

impl From<AuthenticationError> for Error {
    fn from(error: AuthenticationError) -> (r: Error) {
        Error(ErrorKind::Authentication(error))
    }
}

impl vstd::std_specs::convert::FromSpecImpl<AuthenticationError> for Error {
    open spec fn obeys_from_spec() -> bool {
        true
    }

    open spec fn from_spec(error: AuthenticationError) -> Error {
        Error(ErrorKind::Authentication(error))
    }
}

impl From<NumberError> for Error {
    fn from(error: NumberError) -> (r: Error) {
        Error(ErrorKind::Number(error))
    }
}

impl vstd::std_specs::convert::FromSpecImpl<NumberError> for Error {
    open spec fn obeys_from_spec() -> bool {
        true
    }

    open spec fn from_spec(error: NumberError) -> Error {
        Error(ErrorKind::Number(error))
    }
}

} // verus!

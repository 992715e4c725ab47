//! What a poll's answer amounts to. Only a pending authorization lets the
//! flow go on; every other answer, known or not, ends it.

use crate::auth::responses::{
    is_success, AuthenticationResponse, AuthorizationError, DeviceCodeAhenticationError, ErrorBody,
    HttpResponse, TokenRecord,
};
use crate::error::{Failure, Rejection};
use crate::json::{json_document, member_text};
use vstd::prelude::*;

verus! {

/// What one poll found out.
#[derive(Clone, Debug, PartialEq, Eq)]
pub enum AuthorizationOutcome {
    /// The user has not finished yet.
    Pending,
    /// The user refused.
    Declined,
    /// The provider did not recognise the device code.
    BadVerificationCode,
    /// The device code is no longer valid.
    Expired,
    /// The user signed in; holds the tokens.
    Success(AuthenticationResponse),
    /// The answer matched no known shape; holds the raw body.
    Unclassified(String),
}

/// The mathematical model of an [`AuthorizationOutcome`].
pub enum Outcome {
    Pending,
    Declined,
    BadVerificationCode,
    Expired,
    Success(TokenRecord),
    Unclassified(Seq<char>),
}

impl View for AuthorizationOutcome {
    type V = Outcome;

    open spec fn view(&self) -> Outcome {
        match *self {
            AuthorizationOutcome::Pending => Outcome::Pending,
            AuthorizationOutcome::Declined => Outcome::Declined,
            AuthorizationOutcome::BadVerificationCode => Outcome::BadVerificationCode,
            AuthorizationOutcome::Expired => Outcome::Expired,
            AuthorizationOutcome::Success(token) => Outcome::Success(token@),
            AuthorizationOutcome::Unclassified(raw) => Outcome::Unclassified(raw@),
        }
    }
}

impl Outcome {
    /// The outcome that a known error code stands for.
    pub open spec fn of_code(code: AuthorizationError) -> Outcome {
        match code {
            AuthorizationError::AuthorizationPending => Outcome::Pending,
            AuthorizationError::AuthorizationDeclined => Outcome::Declined,
            AuthorizationError::BadVerificationCode => Outcome::BadVerificationCode,
            AuthorizationError::ExpiredToken => Outcome::Expired,
        }
    }

    /// The outcome of an answer without a token: that of the error body's
    /// code, or unclassified where the body held no error body.
    pub open spec fn of_error(error: Option<ErrorBody>, raw: Seq<char>) -> Outcome {
        match error {
            Some(body) => Self::of_code(body.error),
            None => Outcome::Unclassified(raw),
        }
    }

    /// The outcome of an answer that reports success: the token record, or
    /// unclassified where the body held none.
    pub open spec fn of_token(token: Option<TokenRecord>, raw: Seq<char>) -> Outcome {
        match token {
            Some(record) => Outcome::Success(record),
            None => Outcome::Unclassified(raw),
        }
    }

    /// The outcome of an answer to a poll, given its status and body.
    pub open spec fn of_response(status: u16, body: Seq<char>) -> Outcome {
        if is_success(status) {
            Self::of_token(TokenRecord::decode(body), body)
        } else {
            Self::of_error(ErrorBody::decode(body), body)
        }
    }

    /// Whether the flow goes on polling after this outcome.
    pub open spec fn is_recoverable(self) -> bool {
        self is Pending
    }

    /// What the flow hands to its caller when it ends on this outcome; `None`
    /// for a pending authorization, which does not end it.
    pub open spec fn verdict(self) -> Option<Result<TokenRecord, Failure>> {
        match self {
            Outcome::Pending => None,
            Outcome::Success(record) => Some(Ok(record)),
            Outcome::Declined => Some(Err(Failure::AuthorizationFailed(Rejection::Declined))),
            Outcome::BadVerificationCode => Some(
                Err(Failure::AuthorizationFailed(Rejection::BadVerificationCode)),
            ),
            Outcome::Expired => Some(Err(Failure::AuthorizationFailed(Rejection::Expired))),
            Outcome::Unclassified(raw) => Some(Err(Failure::UnexpectedResponse(raw))),
        }
    }

    /// An answer without a token whose body is no JSON document is
    /// unclassified, and holds the body as it came.
    pub proof fn lemma_invalid_json_unclassified(status: u16, body: Seq<char>)
        requires
            !is_success(status),
            json_document(body) is None,
        ensures
            Self::of_response(status, body) == Outcome::Unclassified(body),
    {
    }

    /// An answer without a token whose `error` member is none of the four
    /// known codes is unclassified.
    pub proof fn lemma_unknown_code_unclassified(status: u16, body: Seq<char>)
        requires
            !is_success(status),
            json_document(body) matches Some(doc) && (member_text(doc, "error"@) matches Some(code)
                ==> AuthorizationError::of_code(code) is None),
        ensures
            Self::of_response(status, body) == Outcome::Unclassified(body),
    {
    }

    /// A poll counts as pending only when the answer reports no success and
    /// its body is an error body whose code is `authorization_pending`.
    pub proof fn lemma_pending_only_by_code(status: u16, body: Seq<char>)
        requires
            Self::of_response(status, body) is Pending,
        ensures
            !is_success(status),
            json_document(body) matches Some(doc) && member_text(doc, "error"@) == Some(
                "authorization_pending"@,
            ),
    {
        AuthorizationError::AuthorizationPending.lemma_code_round_trip();
        AuthorizationError::AuthorizationDeclined.lemma_code_round_trip();
        AuthorizationError::BadVerificationCode.lemma_code_round_trip();
        AuthorizationError::ExpiredToken.lemma_code_round_trip();
    }
}

impl AuthorizationOutcome {
    /// The outcome that a known error code stands for.
    pub fn from_code(code: AuthorizationError) -> (r: AuthorizationOutcome)
        ensures
            r@ == Outcome::of_code(code),
    {
        match code {
            AuthorizationError::AuthorizationPending => AuthorizationOutcome::Pending,
            AuthorizationError::AuthorizationDeclined => AuthorizationOutcome::Declined,
            AuthorizationError::BadVerificationCode => AuthorizationOutcome::BadVerificationCode,
            AuthorizationError::ExpiredToken => AuthorizationOutcome::Expired,
        }
    }

    /// The outcome of an answer without a token, given the error body as far
    /// as it could be read, and the raw body.
    pub fn from_error(error: Option<DeviceCodeAhenticationError>, raw: String) -> (r:
        AuthorizationOutcome)
        ensures
            r@ == Outcome::of_error(error.deep_view(), raw@),
    {
        match error {
            Some(body) => Self::from_code(body.error),
            None => AuthorizationOutcome::Unclassified(raw),
        }
    }

    /// The outcome of an answer that reports success, given the token record
    /// as far as it could be read, and the raw body.
    pub fn from_token(token: Option<AuthenticationResponse>, raw: String) -> (r:
        AuthorizationOutcome)
        ensures
            r@ == Outcome::of_token(token.deep_view(), raw@),
    {
        match token {
            Some(record) => AuthorizationOutcome::Success(record),
            None => AuthorizationOutcome::Unclassified(raw),
        }
    }

    /// The outcome of an answer to a poll.
    pub fn from_response(response: HttpResponse) -> (r: AuthorizationOutcome)
        ensures
            r@ == Outcome::of_response(response.status, response.body@),
    {
        if response.succeeded() {
            let token = AuthenticationResponse::decode(response.body.as_str());
            Self::from_token(token, response.body)
        } else {
            let error = DeviceCodeAhenticationError::decode(response.body.as_str());
            Self::from_error(error, response.body)
        }
    }

    /// Whether the flow goes on polling after this outcome.
    pub fn is_recoverable(&self) -> (r: bool)
        ensures
            r == self@.is_recoverable(),
    {
        match self {
            AuthorizationOutcome::Pending => true,
            _ => false,
        }
    }
}

} // verus!

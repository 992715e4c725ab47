//! What the provider answers: the challenge, the token record, the error
//! body, and the outcome that a poll's answer amounts to.

use crate::error::{AuthenticationError, Failure};
use crate::json::{
    json_document, member_number, member_numbers, member_optional_text, member_text,
    number_member, numbers_member, optional_text_member, parse, text_member,
};
use crate::utils::same_text;
use vstd::prelude::*;

verus! {

/// Whether a status code lies in the range 200 to 299.
pub open spec fn is_success(status: u16) -> bool {
    200 <= status < 300
}

/// An answer of the provider as the transport hands it over.
#[derive(Clone, Debug, PartialEq, Eq)]
pub struct HttpResponse {
    /// The status code.
    pub status: u16,
    /// The body as text.
    pub body: String,
}

/// The mathematical model of an [`HttpResponse`].
pub struct ResponseModel {
    pub status: u16,
    pub body: Seq<char>,
}

impl View for HttpResponse {
    type V = ResponseModel;

    open spec fn view(&self) -> ResponseModel {
        ResponseModel { status: self.status, body: self.body@ }
    }
}

/// The model of what the transport reports for one request: the answer, or
/// the cause of its failure.
pub open spec fn reply_model(reply: Result<HttpResponse, String>) -> Result<
    ResponseModel,
    Seq<char>,
> {
    match reply {
        Ok(response) => Ok(response@),
        Err(cause) => Err(cause@),
    }
}

impl HttpResponse {
    /// Whether the status code lies in the range 200 to 299.
    pub fn succeeded(&self) -> (r: bool)
        ensures
            r == is_success(self.status),
    {
        200 <= self.status && self.status < 300
    }
}

/// The mathematical model of a [`DeviceCodeChallenge`].
pub struct ChallengeModel {
    pub device_code: Seq<char>,
    pub user_code: Seq<char>,
    pub verification_uri: Seq<char>,
    pub expires_in: u64,
    pub interval: u64,
    pub message: Seq<char>,
}

impl ChallengeModel {
    /// The challenge that six fields make up: all of them must be there, and
    /// the interval must be at least one second.
    pub open spec fn from_fields(
        device_code: Option<Seq<char>>,
        user_code: Option<Seq<char>>,
        verification_uri: Option<Seq<char>>,
        expires_in: Option<u64>,
        interval: Option<u64>,
        message: Option<Seq<char>>,
    ) -> Option<ChallengeModel> {
        if device_code is Some && user_code is Some && verification_uri is Some && expires_in is Some
            && interval is Some && message is Some && interval.unwrap() >= 1 {
            Some(
                ChallengeModel {
                    device_code: device_code.unwrap(),
                    user_code: user_code.unwrap(),
                    verification_uri: verification_uri.unwrap(),
                    expires_in: expires_in.unwrap(),
                    interval: interval.unwrap(),
                    message: message.unwrap(),
                },
            )
        } else {
            None
        }
    }

    /// The challenge that the members of a JSON document make up.
    pub open spec fn from_document(doc: serde_json::Value) -> Option<ChallengeModel> {
        Self::from_fields(
            member_text(doc, "device_code"@),
            member_text(doc, "user_code"@),
            member_text(doc, "verification_uri"@),
            member_number(doc, "expires_in"@),
            member_number(doc, "interval"@),
            member_text(doc, "message"@),
        )
    }

    /// The challenge that a response body holds.
    pub open spec fn decode(body: Seq<char>) -> Option<ChallengeModel> {
        match json_document(body) {
            Some(doc) => Self::from_document(doc),
            None => None,
        }
    }
}

/// The provider's answer to a request for a device code: what the user has to
/// do, and how to poll for the result. The interval is at least one second.
#[derive(PartialEq, Eq)]
pub struct DeviceCodeChallenge {
    device_code: String,
    user_code: String,
    verification_uri: String,
    expires_in: u64,
    interval: u64,
    message: String,
}

impl View for DeviceCodeChallenge {
    type V = ChallengeModel;

    closed spec fn view(&self) -> ChallengeModel {
        ChallengeModel {
            device_code: self.device_code@,
            user_code: self.user_code@,
            verification_uri: self.verification_uri@,
            expires_in: self.expires_in,
            interval: self.interval,
            message: self.message@,
        }
    }
}

impl DeepView for DeviceCodeChallenge {
    type V = ChallengeModel;

    open spec fn deep_view(&self) -> ChallengeModel {
        self@
    }
}

impl Clone for DeviceCodeChallenge {
    fn clone(&self) -> (r: Self)
        ensures
            r@ == self@,
    {
        proof {
            use_type_invariant(self);
        }
        DeviceCodeChallenge {
            device_code: self.device_code.clone(),
            user_code: self.user_code.clone(),
            verification_uri: self.verification_uri.clone(),
            expires_in: self.expires_in,
            interval: self.interval,
            message: self.message.clone(),
        }
    }
}

/// What the user is shown: the code to enter, where to enter it, and the
/// provider's own wording of both.
#[derive(Clone, Debug, PartialEq, Eq)]
pub struct ChallengePrompt {
    pub user_code: String,
    pub verification_uri: String,
    pub message: String,
}

/// The mathematical model of a [`ChallengePrompt`].
pub struct PromptModel {
    pub user_code: Seq<char>,
    pub verification_uri: Seq<char>,
    pub message: Seq<char>,
}

impl View for ChallengePrompt {
    type V = PromptModel;

    open spec fn view(&self) -> PromptModel {
        PromptModel {
            user_code: self.user_code@,
            verification_uri: self.verification_uri@,
            message: self.message@,
        }
    }
}

impl ChallengeModel {
    /// The part of the challenge that the user is shown.
    pub open spec fn prompt(self) -> PromptModel {
        PromptModel {
            user_code: self.user_code,
            verification_uri: self.verification_uri,
            message: self.message,
        }
    }
}

impl DeviceCodeChallenge {
    #[verifier::type_invariant]
    spec fn inv(self) -> bool {
        self.interval >= 1
    }

    /// A challenge with the given fields; `None` when `interval` is zero.
    pub fn new(
        device_code: String,
        user_code: String,
        verification_uri: String,
        expires_in: u64,
        interval: u64,
        message: String,
    ) -> (r: Option<DeviceCodeChallenge>)
        ensures
            r.deep_view() == ChallengeModel::from_fields(
                Some(device_code@),
                Some(user_code@),
                Some(verification_uri@),
                Some(expires_in),
                Some(interval),
                Some(message@),
            ),
    {
        if interval >= 1 {
            Some(
                DeviceCodeChallenge {
                    device_code,
                    user_code,
                    verification_uri,
                    expires_in,
                    interval,
                    message,
                },
            )
        } else {
            None
        }
    }

    /// The challenge that six fields make up, each as far as it could be
    /// read: all of them must be there, and the interval must be at least one
    /// second.
    pub fn from_fields(
        device_code: Option<String>,
        user_code: Option<String>,
        verification_uri: Option<String>,
        expires_in: Option<u64>,
        interval: Option<u64>,
        message: Option<String>,
    ) -> (r: Option<DeviceCodeChallenge>)
        ensures
            r.deep_view() == ChallengeModel::from_fields(
                device_code.deep_view(),
                user_code.deep_view(),
                verification_uri.deep_view(),
                expires_in,
                interval,
                message.deep_view(),
            ),
    {
        match (device_code, user_code, verification_uri, expires_in, interval, message) {
            (
                Some(device_code),
                Some(user_code),
                Some(verification_uri),
                Some(expires_in),
                Some(interval),
                Some(message),
            ) => Self::new(device_code, user_code, verification_uri, expires_in, interval, message),
            _ => None,
        }
    }

    /// Reads a challenge from the body of a response: a JSON object with the
    /// string members `device_code`, `user_code`, `verification_uri` and
    /// `message` and the number members `expires_in` and `interval`.
    pub fn decode(body: &str) -> (r: Option<DeviceCodeChallenge>)
        ensures
            r.deep_view() == ChallengeModel::decode(body@),
    {
        match parse(body) {
            None => None,
            Some(doc) => Self::from_fields(
                text_member(&doc, "device_code"),
                text_member(&doc, "user_code"),
                text_member(&doc, "verification_uri"),
                number_member(&doc, "expires_in"),
                number_member(&doc, "interval"),
                text_member(&doc, "message"),
            ),
        }
    }

    /// The secret that the client polls with.
    pub fn device_code(&self) -> (r: &str)
        ensures
            r@ == self@.device_code,
    {
        self.device_code.as_str()
    }

    /// The code that the user enters.
    pub fn user_code(&self) -> (r: &str)
        ensures
            r@ == self@.user_code,
    {
        self.user_code.as_str()
    }

    /// Where the user enters the code.
    pub fn verification_uri(&self) -> (r: &str)
        ensures
            r@ == self@.verification_uri,
    {
        self.verification_uri.as_str()
    }

    /// Seconds until the challenge expires.
    pub fn expires_in(&self) -> (r: u64)
        ensures
            r == self@.expires_in,
    {
        self.expires_in
    }

    /// Seconds to wait between two polls; at least one.
    pub fn interval(&self) -> (r: u64)
        ensures
            r == self@.interval,
            r >= 1,
    {
        proof {
            use_type_invariant(self);
        }
        self.interval
    }

    /// The provider's instructions for the user.
    pub fn message(&self) -> (r: &str)
        ensures
            r@ == self@.message,
    {
        self.message.as_str()
    }

    /// The part of the challenge that the user is shown.
    pub fn prompt(&self) -> (r: ChallengePrompt)
        ensures
            r@ == self@.prompt(),
    {
        ChallengePrompt {
            user_code: self.user_code.clone(),
            verification_uri: self.verification_uri.clone(),
            message: self.message.clone(),
        }
    }
}

/// The error codes of the provider that the flow knows.
#[derive(Clone, Copy, Debug, PartialEq, Eq, Structural)]
pub enum AuthorizationError {
    /// `authorization_pending`: the user has not finished yet.
    AuthorizationPending,
    /// `authorization_declined`: the user refused.
    AuthorizationDeclined,
    /// `bad_verification_code`: the device code was not recognised.
    BadVerificationCode,
    /// `expired_token`: the device code is no longer valid.
    ExpiredToken,
}

impl AuthorizationError {
    /// The code as the provider writes it.
    pub open spec fn code(self) -> Seq<char> {
        match self {
            AuthorizationError::AuthorizationPending => "authorization_pending"@,
            AuthorizationError::AuthorizationDeclined => "authorization_declined"@,
            AuthorizationError::BadVerificationCode => "bad_verification_code"@,
            AuthorizationError::ExpiredToken => "expired_token"@,
        }
    }

    /// The error that a code names, if it is one of the four.
    pub open spec fn of_code(code: Seq<char>) -> Option<AuthorizationError> {
        if code == "authorization_pending"@ {
            Some(AuthorizationError::AuthorizationPending)
        } else if code == "authorization_declined"@ {
            Some(AuthorizationError::AuthorizationDeclined)
        } else if code == "bad_verification_code"@ {
            Some(AuthorizationError::BadVerificationCode)
        } else if code == "expired_token"@ {
            Some(AuthorizationError::ExpiredToken)
        } else {
            None
        }
    }

    /// The error that a code names, if it is one of the four.
    pub fn from_code(code: &str) -> (r: Option<AuthorizationError>)
        ensures
            r == Self::of_code(code@),
    {
        if same_text(code, "authorization_pending") {
            Some(AuthorizationError::AuthorizationPending)
        } else if same_text(code, "authorization_declined") {
            Some(AuthorizationError::AuthorizationDeclined)
        } else if same_text(code, "bad_verification_code") {
            Some(AuthorizationError::BadVerificationCode)
        } else if same_text(code, "expired_token") {
            Some(AuthorizationError::ExpiredToken)
        } else {
            None
        }
    }

    /// The code as the provider writes it.
    pub fn as_code(&self) -> (code: &'static str)
        ensures
            code@ == self.code(),
    {
        match self {
            AuthorizationError::AuthorizationPending => "authorization_pending",
            AuthorizationError::AuthorizationDeclined => "authorization_declined",
            AuthorizationError::BadVerificationCode => "bad_verification_code",
            AuthorizationError::ExpiredToken => "expired_token",
        }
    }

    /// Each error is the one that its own code names.
    pub proof fn lemma_code_round_trip(self)
        ensures
            Self::of_code(self.code()) == Some(self),
    {
        reveal_strlit("authorization_pending");
        reveal_strlit("authorization_declined");
        reveal_strlit("bad_verification_code");
        reveal_strlit("expired_token");
        assert("authorization_pending"@.len() == 21);
        assert("authorization_declined"@.len() == 22);
        assert("bad_verification_code"@.len() == 21);
        assert("expired_token"@.len() == 13);
        assert("authorization_pending"@[0] == 'a');
        assert("bad_verification_code"@[0] == 'b');
    }
}

/// The mathematical model of a [`DeviceCodeAhenticationError`].
pub struct ErrorBody {
    pub error: AuthorizationError,
    pub error_description: Seq<char>,
    pub error_codes: Seq<u64>,
    pub timestamp: Seq<char>,
    pub trace_id: Seq<char>,
    pub correlation_id: Seq<char>,
}

impl ErrorBody {
    /// The error body that six fields make up: all of them must be there, and
    /// the error code must be one of the four that the flow knows.
    pub open spec fn from_fields(
        error: Option<Seq<char>>,
        error_description: Option<Seq<char>>,
        error_codes: Option<Seq<u64>>,
        timestamp: Option<Seq<char>>,
        trace_id: Option<Seq<char>>,
        correlation_id: Option<Seq<char>>,
    ) -> Option<ErrorBody> {
        if error is Some && AuthorizationError::of_code(error.unwrap()) is Some
            && error_description is Some && error_codes is Some && timestamp is Some
            && trace_id is Some && correlation_id is Some {
            Some(
                ErrorBody {
                    error: AuthorizationError::of_code(error.unwrap()).unwrap(),
                    error_description: error_description.unwrap(),
                    error_codes: error_codes.unwrap(),
                    timestamp: timestamp.unwrap(),
                    trace_id: trace_id.unwrap(),
                    correlation_id: correlation_id.unwrap(),
                },
            )
        } else {
            None
        }
    }

    /// The error body that the members of a JSON document make up.
    pub open spec fn from_document(doc: serde_json::Value) -> Option<ErrorBody> {
        Self::from_fields(
            member_text(doc, "error"@),
            member_text(doc, "error_description"@),
            member_numbers(doc, "error_codes"@),
            member_text(doc, "timestamp"@),
            member_text(doc, "trace_id"@),
            member_text(doc, "correlation_id"@),
        )
    }

    /// The error body that a response body holds.
    pub open spec fn decode(body: Seq<char>) -> Option<ErrorBody> {
        match json_document(body) {
            Some(doc) => Self::from_document(doc),
            None => None,
        }
    }
}

/// The body of the provider's answer when it does not hand out a token.
#[derive(Clone, Debug, PartialEq, Eq)]
pub struct DeviceCodeAhenticationError {
    pub error: AuthorizationError,
    pub error_description: String,
    pub error_codes: Vec<u64>,
    pub timestamp: String,
    pub trace_id: String,
    pub correlation_id: String,
}

impl View for DeviceCodeAhenticationError {
    type V = ErrorBody;

    open spec fn view(&self) -> ErrorBody {
        ErrorBody {
            error: self.error,
            error_description: self.error_description@,
            error_codes: self.error_codes@,
            timestamp: self.timestamp@,
            trace_id: self.trace_id@,
            correlation_id: self.correlation_id@,
        }
    }
}

impl DeepView for DeviceCodeAhenticationError {
    type V = ErrorBody;

    open spec fn deep_view(&self) -> ErrorBody {
        self@
    }
}

impl DeviceCodeAhenticationError {
    /// The error body that six fields make up, each as far as it could be
    /// read: all of them must be there, and the error code must be one of the
    /// four that the flow knows.
    pub fn from_fields(
        error: Option<String>,
        error_description: Option<String>,
        error_codes: Option<Vec<u64>>,
        timestamp: Option<String>,
        trace_id: Option<String>,
        correlation_id: Option<String>,
    ) -> (r: Option<DeviceCodeAhenticationError>)
        ensures
            r.deep_view() == ErrorBody::from_fields(
                error.deep_view(),
                error_description.deep_view(),
                error_codes.deep_view(),
                timestamp.deep_view(),
                trace_id.deep_view(),
                correlation_id.deep_view(),
            ),
    {
        proof {
            if error_codes is Some {
                assert(error_codes.unwrap().deep_view() =~= error_codes.unwrap()@);
            }
        }
        match (error, error_description, error_codes, timestamp, trace_id, correlation_id) {
            (
                Some(code),
                Some(error_description),
                Some(error_codes),
                Some(timestamp),
                Some(trace_id),
                Some(correlation_id),
            ) => match AuthorizationError::from_code(code.as_str()) {
                Some(error) => Some(
                    DeviceCodeAhenticationError {
                        error,
                        error_description,
                        error_codes,
                        timestamp,
                        trace_id,
                        correlation_id,
                    },
                ),
                None => None,
            },
            _ => None,
        }
    }

    /// Reads an error body from the body of a response: a JSON object with
    /// the string members `error`, `error_description`, `timestamp`,
    /// `trace_id` and `correlation_id` and the member `error_codes`, an array
    /// of numbers.
    pub fn decode(body: &str) -> (r: Option<DeviceCodeAhenticationError>)
        ensures
            r.deep_view() == ErrorBody::decode(body@),
    {
        match parse(body) {
            None => None,
            Some(doc) => Self::from_fields(
                text_member(&doc, "error"),
                text_member(&doc, "error_description"),
                numbers_member(&doc, "error_codes"),
                text_member(&doc, "timestamp"),
                text_member(&doc, "trace_id"),
                text_member(&doc, "correlation_id"),
            ),
        }
    }
}

/// The mathematical model of an [`AuthenticationResponse`].
pub struct TokenRecord {
    pub token_type: Seq<char>,
    pub scope: Seq<char>,
    pub expires_in: u64,
    pub ext_expires_in: u64,
    pub access_token: Seq<char>,
    pub refresh_token: Seq<char>,
    pub id_token: Option<Seq<char>>,
}

impl TokenRecord {
    /// The token record that seven fields make up: all but the identity token
    /// must be there, and the identity token, where it is there, must be text.
    pub open spec fn from_fields(
        token_type: Option<Seq<char>>,
        scope: Option<Seq<char>>,
        expires_in: Option<u64>,
        ext_expires_in: Option<u64>,
        access_token: Option<Seq<char>>,
        refresh_token: Option<Seq<char>>,
        id_token: Option<Option<Seq<char>>>,
    ) -> Option<TokenRecord> {
        if token_type is Some && scope is Some && expires_in is Some && ext_expires_in is Some
            && access_token is Some && refresh_token is Some && id_token is Some {
            Some(
                TokenRecord {
                    token_type: token_type.unwrap(),
                    scope: scope.unwrap(),
                    expires_in: expires_in.unwrap(),
                    ext_expires_in: ext_expires_in.unwrap(),
                    access_token: access_token.unwrap(),
                    refresh_token: refresh_token.unwrap(),
                    id_token: id_token.unwrap(),
                },
            )
        } else {
            None
        }
    }

    /// The token record that the members of a JSON document make up.
    pub open spec fn from_document(doc: serde_json::Value) -> Option<TokenRecord> {
        Self::from_fields(
            member_text(doc, "token_type"@),
            member_text(doc, "scope"@),
            member_number(doc, "expires_in"@),
            member_number(doc, "ext_expires_in"@),
            member_text(doc, "access_token"@),
            member_text(doc, "refresh_token"@),
            member_optional_text(doc, "id_token"@),
        )
    }

    /// The token record that a response body holds.
    pub open spec fn decode(body: Seq<char>) -> Option<TokenRecord> {
        match json_document(body) {
            Some(doc) => Self::from_document(doc),
            None => None,
        }
    }

    /// What a request for a fresh token comes to: the cause where the request
    /// did not get through, the raw body where the answer reports no success
    /// or holds no token record, and the token record otherwise.
    pub open spec fn refreshed(reply: Result<ResponseModel, Seq<char>>) -> Result<
        TokenRecord,
        Failure,
    > {
        match reply {
            Err(cause) => Err(Failure::NetworkError(cause)),
            Ok(response) => Self::refreshed_from(
                is_success(response.status),
                Self::decode(response.body),
                response.body,
            ),
        }
    }

    /// What an answer to a request for a fresh token comes to, given whether
    /// it reports success, the token record as far as it could be read, and
    /// the raw body.
    pub open spec fn refreshed_from(
        succeeded: bool,
        token: Option<TokenRecord>,
        raw: Seq<char>,
    ) -> Result<TokenRecord, Failure> {
        if succeeded && token is Some {
            Ok(token.unwrap())
        } else {
            Err(Failure::UnexpectedResponse(raw))
        }
    }
}

/// The tokens that the provider hands out once the user has signed in.
#[derive(Clone, Debug, PartialEq, Eq)]
pub struct AuthenticationResponse {
    pub token_type: String,
    pub scope: String,
    pub expires_in: u64,
    pub ext_expires_in: u64,
    pub access_token: String,
    pub refresh_token: String,
    pub id_token: Option<String>,
}

impl View for AuthenticationResponse {
    type V = TokenRecord;

    open spec fn view(&self) -> TokenRecord {
        TokenRecord {
            token_type: self.token_type@,
            scope: self.scope@,
            expires_in: self.expires_in,
            ext_expires_in: self.ext_expires_in,
            access_token: self.access_token@,
            refresh_token: self.refresh_token@,
            id_token: self.id_token.deep_view(),
        }
    }
}

impl DeepView for AuthenticationResponse {
    type V = TokenRecord;

    open spec fn deep_view(&self) -> TokenRecord {
        self@
    }
}

/// The model of what a request for tokens comes to: the token record, or the
/// failure.
pub open spec fn verdict_model(
    result: Result<AuthenticationResponse, AuthenticationError>,
) -> Result<TokenRecord, Failure> {
    match result {
        Ok(token) => Ok(token@),
        Err(error) => Err(error@),
    }
}

impl AuthenticationResponse {
    /// The token record that seven fields make up, each as far as it could be
    /// read: all but the identity token must be there; for the identity token
    /// the outer `None` says that it was there and was no text.
    pub fn from_fields(
        token_type: Option<String>,
        scope: Option<String>,
        expires_in: Option<u64>,
        ext_expires_in: Option<u64>,
        access_token: Option<String>,
        refresh_token: Option<String>,
        id_token: Option<Option<String>>,
    ) -> (r: Option<AuthenticationResponse>)
        ensures
            r.deep_view() == TokenRecord::from_fields(
                token_type.deep_view(),
                scope.deep_view(),
                expires_in,
                ext_expires_in,
                access_token.deep_view(),
                refresh_token.deep_view(),
                id_token.deep_view(),
            ),
    {
        match (token_type, scope, expires_in, ext_expires_in, access_token, refresh_token, id_token) {
            (
                Some(token_type),
                Some(scope),
                Some(expires_in),
                Some(ext_expires_in),
                Some(access_token),
                Some(refresh_token),
                Some(id_token),
            ) => Some(
                AuthenticationResponse {
                    token_type,
                    scope,
                    expires_in,
                    ext_expires_in,
                    access_token,
                    refresh_token,
                    id_token,
                },
            ),
            _ => None,
        }
    }

    /// What an answer to a request for a fresh token comes to, given whether
    /// it reports success, the token record as far as it could be read, and
    /// the raw body.
    pub fn refreshed_from(succeeded: bool, token: Option<AuthenticationResponse>, raw: String) -> (r:
        Result<AuthenticationResponse, AuthenticationError>)
        ensures
            verdict_model(r) == TokenRecord::refreshed_from(succeeded, token.deep_view(), raw@),
    {
        match token {
            Some(record) => if succeeded {
                Ok(record)
            } else {
                Err(AuthenticationError::UnexpectedResponse(raw))
            },
            None => Err(AuthenticationError::UnexpectedResponse(raw)),
        }
    }

    /// What a request for a fresh token comes to.
    pub fn refreshed(reply: Result<HttpResponse, String>) -> (r: Result<
        AuthenticationResponse,
        AuthenticationError,
    >)
        ensures
            verdict_model(r) == TokenRecord::refreshed(reply_model(reply)),
    {
        match reply {
            Err(cause) => Err(AuthenticationError::NetworkError(cause)),
            Ok(response) => {
                let succeeded = response.succeeded();
                let token = Self::decode(response.body.as_str());
                Self::refreshed_from(succeeded, token, response.body)
            },
        }
    }

    /// Reads a token record from the body of a response: a JSON object with
    /// the string members `token_type`, `scope`, `access_token` and
    /// `refresh_token`, the number members `expires_in` and `ext_expires_in`,
    /// and `id_token`, a string that may be null or left out.
    pub fn decode(body: &str) -> (r: Option<AuthenticationResponse>)
        ensures
            r.deep_view() == TokenRecord::decode(body@),
    {
        match parse(body) {
            None => None,
            Some(doc) => Self::from_fields(
                text_member(&doc, "token_type"),
                text_member(&doc, "scope"),
                number_member(&doc, "expires_in"),
                number_member(&doc, "ext_expires_in"),
                text_member(&doc, "access_token"),
                text_member(&doc, "refresh_token"),
                optional_text_member(&doc, "id_token"),
            ),
        }
    }
}

} // verus!

//! Account lifecycle operations against the upstream identity provider:
//! the requests to send and the reading of what comes back.
//!
//! Sending is left to the caller. A lifecycle operation is two steps here:
//! a method of [`SupabaseClient`] that says what to send, and an outcome
//! function that turns the provider's reply into a session, a pending
//! confirmation, or one error of a fixed set.

use super::client::{auth_address, SupabaseClient};
use crate::text::same_text;
use vstd::prelude::*;
use vstd::string::*;

verus! {

/// The account a session belongs to.
#[derive(Debug, Clone, PartialEq, Eq)]
pub struct User {
    pub id: String,
    pub email: String,
}

/// A user as text.
pub struct UserModel {
    pub id: Seq<char>,
    pub email: Seq<char>,
}

impl View for User {
    type V = UserModel;

    open spec fn view(&self) -> UserModel {
        UserModel { id: self.id@, email: self.email@ }
    }
}

/// A full session: both tokens and the user they were issued to.
#[derive(Debug, Clone, PartialEq, Eq)]
pub struct AuthResponse {
    pub access_token: String,
    pub refresh_token: String,
    pub user: User,
}

/// A session as text.
pub struct SessionModel {
    pub access_token: Seq<char>,
    pub refresh_token: Seq<char>,
    pub user: UserModel,
}

impl View for AuthResponse {
    type V = SessionModel;

    open spec fn view(&self) -> SessionModel {
        SessionModel {
            access_token: self.access_token@,
            refresh_token: self.refresh_token@,
            user: self.user@,
        }
    }
}

/// How a lifecycle operation ended when it did not fail.
#[derive(Debug, Clone, PartialEq, Eq)]
pub enum AuthResult {
    /// The provider issued a session.
    Session(AuthResponse),
    /// The account exists but no session is issued until the address is confirmed.
    ConfirmationPending,
}

/// A lifecycle result as text.
pub enum AuthResultModel {
    Session(SessionModel),
    ConfirmationPending,
}

impl View for AuthResult {
    type V = AuthResultModel;

    open spec fn view(&self) -> AuthResultModel {
        match self {
            AuthResult::Session(session) => AuthResultModel::Session(session@),
            AuthResult::ConfirmationPending => AuthResultModel::ConfirmationPending,
        }
    }
}

/// The ways a lifecycle operation fails.
#[derive(Debug, Clone, PartialEq, Eq)]
pub enum AuthError {
    /// The account's address has not been confirmed yet.
    EmailNotConfirmed,
    /// The provider refused the address and password.
    InvalidCredentials,
    /// The confirmation token was refused.
    InvalidToken,
    /// The confirmation token is no longer valid.
    ExpiredToken,
    /// The provider refused a registration; the text is its reason.
    Rejected(String),
    /// The provider answered with success but broke its own contract; the
    /// text names what was missing.
    MalformedUpstreamResponse(String),
    /// The provider could not be reached or failed in a way that is not the
    /// caller's doing.
    Unavailable(String),
}

/// A lifecycle error as text.
pub enum AuthErrorModel {
    EmailNotConfirmed,
    InvalidCredentials,
    InvalidToken,
    ExpiredToken,
    Rejected(Seq<char>),
    MalformedUpstreamResponse(Seq<char>),
    Unavailable(Seq<char>),
}

impl View for AuthError {
    type V = AuthErrorModel;

    open spec fn view(&self) -> AuthErrorModel {
        match self {
            AuthError::EmailNotConfirmed => AuthErrorModel::EmailNotConfirmed,
            AuthError::InvalidCredentials => AuthErrorModel::InvalidCredentials,
            AuthError::InvalidToken => AuthErrorModel::InvalidToken,
            AuthError::ExpiredToken => AuthErrorModel::ExpiredToken,
            AuthError::Rejected(reason) => AuthErrorModel::Rejected(reason@),
            AuthError::MalformedUpstreamResponse(missing) => {
                AuthErrorModel::MalformedUpstreamResponse(missing@)
            },
            AuthError::Unavailable(detail) => AuthErrorModel::Unavailable(detail@),
        }
    }
}

/// The error fields the provider is known to use, each as it was found in
/// the body of a reply.
#[derive(Debug, Clone, PartialEq, Eq)]
pub struct UpstreamErrorShape {
    pub error_code: Option<String>,
    pub msg: Option<String>,
    pub error_description: Option<String>,
    pub message: Option<String>,
}

/// An error shape as text.
pub struct ErrorShapeModel {
    pub error_code: Option<Seq<char>>,
    pub msg: Option<Seq<char>>,
    pub error_description: Option<Seq<char>>,
    pub message: Option<Seq<char>>,
}

impl View for UpstreamErrorShape {
    type V = ErrorShapeModel;

    open spec fn view(&self) -> ErrorShapeModel {
        ErrorShapeModel {
            error_code: self.error_code.deep_view(),
            msg: self.msg.deep_view(),
            error_description: self.error_description.deep_view(),
            message: self.message.deep_view(),
        }
    }
}

/// The `user` object of a session body, each field as it was found.
#[derive(Debug, Clone, PartialEq, Eq)]
pub struct UpstreamUser {
    pub id: Option<String>,
    pub email: Option<String>,
}

/// An upstream user as text.
pub struct UpstreamUserModel {
    pub id: Option<Seq<char>>,
    pub email: Option<Seq<char>>,
}

impl View for UpstreamUser {
    type V = UpstreamUserModel;

    open spec fn view(&self) -> UpstreamUserModel {
        UpstreamUserModel { id: self.id.deep_view(), email: self.email.deep_view() }
    }
}

/// The body of a successful reply, each field as it was found.
#[derive(Debug, Clone, PartialEq, Eq)]
pub struct UpstreamSession {
    pub access_token: Option<String>,
    pub refresh_token: Option<String>,
    pub user: Option<UpstreamUser>,
}

/// An upstream session body as text.
pub struct UpstreamSessionModel {
    pub access_token: Option<Seq<char>>,
    pub refresh_token: Option<Seq<char>>,
    pub user: Option<UpstreamUserModel>,
}

impl View for UpstreamSession {
    type V = UpstreamSessionModel;

    open spec fn view(&self) -> UpstreamSessionModel {
        UpstreamSessionModel {
            access_token: self.access_token.deep_view(),
            refresh_token: self.refresh_token.deep_view(),
            user: match self.user {
                Some(user) => Some(user@),
                None => None,
            },
        }
    }
}

/// What came back from the provider for one request.
#[derive(Debug, Clone, PartialEq, Eq)]
pub enum UpstreamReply {
    /// No response arrived; the text describes the transport failure.
    Unreachable(String),
    /// A response arrived. `error` is its body read as an error shape and
    /// `session` its body read as a session; each is `None` when the body
    /// cannot be read that way.
    Answered { status: u16, error: Option<UpstreamErrorShape>, session: Option<UpstreamSession> },
}

/// A reply as text.
pub enum UpstreamReplyModel {
    Unreachable(Seq<char>),
    Answered {
        status: u16,
        error: Option<ErrorShapeModel>,
        session: Option<UpstreamSessionModel>,
    },
}

impl View for UpstreamReply {
    type V = UpstreamReplyModel;

    open spec fn view(&self) -> UpstreamReplyModel {
        match self {
            UpstreamReply::Unreachable(detail) => UpstreamReplyModel::Unreachable(detail@),
            UpstreamReply::Answered { status, error, session } => UpstreamReplyModel::Answered {
                status: *status,
                error: match error {
                    Some(shape) => Some(shape@),
                    None => None,
                },
                session: match session {
                    Some(body) => Some(body@),
                    None => None,
                },
            },
        }
    }
}

/// The fields of the JSON body that one operation posts.
#[derive(Debug, Clone, PartialEq, Eq)]
pub enum RequestBody {
    /// `email`, `password`, and `email_redirect_to` under `options`.
    SignUp { email: String, password: String, email_redirect_to: String },
    /// `email` and `password`.
    SignIn { email: String, password: String },
    /// `token_hash`, the verification type under `type`, and the address
    /// under `email` only where one was given.
    VerifyOtp { token_hash: String, verification_type: String, address: Option<String> },
}

/// A request body as text.
pub enum RequestBodyModel {
    SignUp { email: Seq<char>, password: Seq<char>, email_redirect_to: Seq<char> },
    SignIn { email: Seq<char>, password: Seq<char> },
    VerifyOtp { token_hash: Seq<char>, verification_type: Seq<char>, address: Option<Seq<char>> },
}

impl View for RequestBody {
    type V = RequestBodyModel;

    open spec fn view(&self) -> RequestBodyModel {
        match self {
            RequestBody::SignUp { email, password, email_redirect_to } => RequestBodyModel::SignUp {
                email: email@,
                password: password@,
                email_redirect_to: email_redirect_to@,
            },
            RequestBody::SignIn { email, password } => RequestBodyModel::SignIn {
                email: email@,
                password: password@,
            },
            RequestBody::VerifyOtp {
                token_hash,
                verification_type,
                address,
            } => RequestBodyModel::VerifyOtp {
                token_hash: token_hash@,
                verification_type: verification_type@,
                address: address.deep_view(),
            },
        }
    }
}

/// One POST to the provider: where it goes, the API key that goes with it,
/// and its body.
#[derive(Debug, Clone, PartialEq, Eq)]
pub struct ProxyRequest {
    pub url: String,
    pub api_key: String,
    pub body: RequestBody,
}

/// A request as text.
pub struct ProxyRequestModel {
    pub url: Seq<char>,
    pub api_key: Seq<char>,
    pub body: RequestBodyModel,
}

impl View for ProxyRequest {
    type V = ProxyRequestModel;

    open spec fn view(&self) -> ProxyRequestModel {
        ProxyRequestModel { url: self.url@, api_key: self.api_key@, body: self.body@ }
    }
}

/// Where a confirmation mail sends the user back to: the callback path of
/// the site, or of the local development site when none is configured.
pub open spec fn redirect_target(site_url: Option<Seq<char>>) -> Seq<char> {
    match site_url {
        Some(site) => site + "/auth/callback"@,
        None => "http://localhost:5173"@ + "/auth/callback"@,
    }
}

/// The redirect target that a registration names.
pub fn email_redirect_target(site_url: Option<&str>) -> (target: String)
    ensures
        target@ == redirect_target(
            match site_url {
                Some(site) => Some(site@),
                None => None,
            },
        ),
{
    let mut target = match site_url {
        Some(site) => String::from_str(site),
        None => String::from_str("http://localhost:5173"),
    };
    target.append("/auth/callback");
    target
}

impl SupabaseClient {
    /// The request that registers an account.
    pub fn sign_up(&self, email: &str, password: &str, redirect_url: &str) -> (request:
        ProxyRequest)
        ensures
            request@ == (ProxyRequestModel {
                url: auth_address(self.base_url(), "/signup"@),
                api_key: self.api_key(),
                body: RequestBodyModel::SignUp {
                    email: email@,
                    password: password@,
                    email_redirect_to: redirect_url@,
                },
            }),
    {
        ProxyRequest {
            url: self.auth_url("/signup"),
            api_key: String::from_str(self.anon_key()),
            body: RequestBody::SignUp {
                email: String::from_str(email),
                password: String::from_str(password),
                email_redirect_to: String::from_str(redirect_url),
            },
        }
    }

    /// The request that exchanges an address and password for a session.
    pub fn sign_in(&self, email: &str, password: &str) -> (request: ProxyRequest)
        ensures
            request@ == (ProxyRequestModel {
                url: auth_address(self.base_url(), "/token?grant_type=password"@),
                api_key: self.api_key(),
                body: RequestBodyModel::SignIn { email: email@, password: password@ },
            }),
    {
        ProxyRequest {
            url: self.auth_url("/token?grant_type=password"),
            api_key: String::from_str(self.anon_key()),
            body: RequestBody::SignIn {
                email: String::from_str(email),
                password: String::from_str(password),
            },
        }
    }

    /// The request that redeems a confirmation token. The address is part
    /// of the body only where one is given.
    pub fn verify_otp(&self, token_hash: &str, verification_type: &str, email: Option<&str>) -> (request:
        ProxyRequest)
        ensures
            request@ == (ProxyRequestModel {
                url: auth_address(self.base_url(), "/verify"@),
                api_key: self.api_key(),
                body: RequestBodyModel::VerifyOtp {
                    token_hash: token_hash@,
                    verification_type: verification_type@,
                    address: match email {
                        Some(address) => Some(address@),
                        None => None,
                    },
                },
            }),
    {
        let address = match email {
            Some(address) => Some(String::from_str(address)),
            None => None,
        };
        ProxyRequest {
            url: self.auth_url("/verify"),
            api_key: String::from_str(self.anon_key()),
            body: RequestBody::VerifyOtp {
                token_hash: String::from_str(token_hash),
                verification_type: String::from_str(verification_type),
                address,
            },
        }
    }
}

/// The view of a lifecycle operation's result: the session or the error as text.
pub open spec fn outcome_model(outcome: Result<AuthResult, AuthError>) -> Result<
    AuthResultModel,
    AuthErrorModel,
> {
    match outcome {
        Ok(result) => Ok(result@),
        Err(error) => Err(error@),
    }
}

/// The message of an error: a fixed text for each refusal that the caller
/// can mend, the provider's reason for a refused registration, and the
/// detail of every other failure.
pub open spec fn error_text(error: AuthErrorModel) -> Seq<char> {
    match error {
        AuthErrorModel::EmailNotConfirmed => "Please confirm your email address before signing in. Check your inbox for the confirmation link."@,
        AuthErrorModel::InvalidCredentials => "Invalid email or password. Please try again."@,
        AuthErrorModel::InvalidToken => "The confirmation link is invalid. Please sign up again."@,
        AuthErrorModel::ExpiredToken => "The confirmation link has expired. Please sign up again to receive a new link."@,
        AuthErrorModel::Rejected(reason) => reason,
        AuthErrorModel::MalformedUpstreamResponse(missing) => "Missing data: "@ + missing,
        AuthErrorModel::Unavailable(detail) => detail,
    }
}

impl AuthError {
    /// The message of this error.
    pub fn message(&self) -> (text: String)
        ensures
            text@ == error_text(self@),
    {
        match self {
            AuthError::EmailNotConfirmed => String::from_str(
                "Please confirm your email address before signing in. Check your inbox for the confirmation link.",
            ),
            AuthError::InvalidCredentials => String::from_str(
                "Invalid email or password. Please try again.",
            ),
            AuthError::InvalidToken => String::from_str(
                "The confirmation link is invalid. Please sign up again.",
            ),
            AuthError::ExpiredToken => String::from_str(
                "The confirmation link has expired. Please sign up again to receive a new link.",
            ),
            AuthError::Rejected(reason) => reason.clone(),
            AuthError::MalformedUpstreamResponse(missing) => String::from_str(
                "Missing data: ",
            ).concat(missing.as_str()),
            AuthError::Unavailable(detail) => detail.clone(),
        }
    }
}

/// The error for a provider that did not answer: the transport's own
/// words, marked as a network error.
pub open spec fn unreachable_error(detail: Seq<char>) -> AuthErrorModel {
    AuthErrorModel::Unavailable("Network error: "@ + detail)
}

/// Whether a status belongs to the success class.
pub open spec fn success_status(status: u16) -> bool {
    200 <= status && status < 300
}

/// Whether a field is there and holds at least one character.
pub open spec fn filled(field: Option<Seq<char>>) -> bool {
    field matches Some(text) && text.len() > 0
}

/// The message of a refused registration: the first field that is filled
/// among the provider's own message, its description and its generic
/// message, in that order; a fixed text when none is.
pub open spec fn rejection_text(shape: ErrorShapeModel) -> Seq<char> {
    if filled(shape.msg) {
        shape.msg->0
    } else if filled(shape.error_description) {
        shape.error_description->0
    } else if filled(shape.message) {
        shape.message->0
    } else {
        "Sign up failed"@
    }
}

/// The error code a reply carries, if its body could be read as an error
/// shape and names one.
pub open spec fn error_code_of(error: Option<ErrorShapeModel>) -> Option<Seq<char>> {
    match error {
        Some(shape) => shape.error_code,
        None => None,
    }
}

/// The session that a body must hold in full. The first field found
/// missing, in the order access token, refresh token, user, user id, user
/// email, is the one the error names.
pub open spec fn required_session(body: UpstreamSessionModel) -> Result<
    SessionModel,
    AuthErrorModel,
> {
    if body.access_token is None {
        Err(AuthErrorModel::MalformedUpstreamResponse("access_token"@))
    } else if body.refresh_token is None {
        Err(AuthErrorModel::MalformedUpstreamResponse("refresh_token"@))
    } else if body.user is None {
        Err(AuthErrorModel::MalformedUpstreamResponse("user"@))
    } else if body.user->0.id is None {
        Err(AuthErrorModel::MalformedUpstreamResponse("user id"@))
    } else if body.user->0.email is None {
        Err(AuthErrorModel::MalformedUpstreamResponse("user email"@))
    } else {
        Ok(
            SessionModel {
                access_token: body.access_token->0,
                refresh_token: body.refresh_token->0,
                user: UserModel { id: body.user->0.id->0, email: body.user->0.email->0 },
            },
        )
    }
}

/// A body read as a session, or as the error that names what it lacks.
pub open spec fn session_or_error(session: Option<UpstreamSessionModel>) -> Result<
    AuthResultModel,
    AuthErrorModel,
> {
    match session {
        None => Err(AuthErrorModel::MalformedUpstreamResponse("response body"@)),
        Some(body) => match required_session(body) {
            Ok(found) => Ok(AuthResultModel::Session(found)),
            Err(error) => Err(error),
        },
    }
}

/// Whether a body holds the three top-level parts of a session.
pub open spec fn has_token_set(body: UpstreamSessionModel) -> bool {
    body.access_token is Some && body.refresh_token is Some && body.user is Some
}

/// What a registration comes to, for each reply.
///
/// A refusal carries the provider's message. A success with the three parts
/// of a session is that session, and the user's id and address are then
/// owed. A success that lacks any of the three parts means that the address
/// has to be confirmed first, which is no error.
pub open spec fn sign_up_result(reply: UpstreamReplyModel) -> Result<
    AuthResultModel,
    AuthErrorModel,
> {
    match reply {
        UpstreamReplyModel::Unreachable(detail) => Err(unreachable_error(detail)),
        UpstreamReplyModel::Answered { status, error, session } => if !success_status(status) {
            match error {
                None => Err(AuthErrorModel::MalformedUpstreamResponse("error body"@)),
                Some(shape) => Err(AuthErrorModel::Rejected(rejection_text(shape))),
            }
        } else {
            match session {
                None => Err(AuthErrorModel::MalformedUpstreamResponse("response body"@)),
                Some(body) => if has_token_set(body) {
                    session_or_error(session)
                } else {
                    Ok(AuthResultModel::ConfirmationPending)
                },
            }
        },
    }
}

/// What a login comes to, for each reply.
///
/// A refusal that names an unconfirmed address says so; any other refusal
/// with status 400 or 401 is a wrong address or password; every other
/// refusal is the provider's failure. A success owes a full session.
pub open spec fn sign_in_result(reply: UpstreamReplyModel) -> Result<
    AuthResultModel,
    AuthErrorModel,
> {
    match reply {
        UpstreamReplyModel::Unreachable(detail) => Err(unreachable_error(detail)),
        UpstreamReplyModel::Answered { status, error, session } => if !success_status(status) {
            if error_code_of(error) == Some("email_not_confirmed"@) {
                Err(AuthErrorModel::EmailNotConfirmed)
            } else if status == 400 || status == 401 {
                Err(AuthErrorModel::InvalidCredentials)
            } else {
                Err(AuthErrorModel::Unavailable("Unable to sign in. Please try again later."@))
            }
        } else {
            session_or_error(session)
        },
    }
}

/// What a confirmation comes to, for each reply.
///
/// A refusal that names an expired token says so; every other refusal is an
/// invalid token. A success owes a full session.
pub open spec fn verify_otp_result(reply: UpstreamReplyModel) -> Result<
    AuthResultModel,
    AuthErrorModel,
> {
    match reply {
        UpstreamReplyModel::Unreachable(detail) => Err(unreachable_error(detail)),
        UpstreamReplyModel::Answered { status, error, session } => if !success_status(status) {
            if error_code_of(error) == Some("otp_expired"@) {
                Err(AuthErrorModel::ExpiredToken)
            } else {
                Err(AuthErrorModel::InvalidToken)
            }
        } else {
            session_or_error(session)
        },
    }
}

/// Whether a status belongs to the success class.
pub fn is_success(status: u16) -> (yes: bool)
    ensures
        yes == success_status(status),
{
    200 <= status && status < 300
}

/// A copy of the field if it is filled.
fn filled_copy(field: &Option<String>) -> (copy: Option<String>)
    ensures
        copy.deep_view() == (if filled(field.deep_view()) {
            field.deep_view()
        } else {
            None
        }),
{
    match field {
        Some(text) => if text.as_str().is_empty() {
            None
        } else {
            Some(text.clone())
        },
        None => None,
    }
}

/// The message to pass on for a refused registration.
pub fn rejection_message(shape: &UpstreamErrorShape) -> (text: String)
    ensures
        text@ == rejection_text(shape@),
{
    match filled_copy(&shape.msg) {
        Some(text) => text,
        None => match filled_copy(&shape.error_description) {
            Some(text) => text,
            None => match filled_copy(&shape.message) {
                Some(text) => text,
                None => String::from_str("Sign up failed"),
            },
        },
    }
}

/// Whether the reply's error shape names exactly `code`.
fn names_code(error: &Option<UpstreamErrorShape>, code: &str) -> (yes: bool)
    ensures
        yes == (error_code_of(
            match error {
                Some(shape) => Some(shape@),
                None => None,
            },
        ) == Some(code@)),
{
    match error {
        Some(shape) => match &shape.error_code {
            Some(found) => same_text(found.as_str(), code),
            None => false,
        },
        None => false,
    }
}

/// The error for a provider that did not answer.
fn unreachable(detail: String) -> (error: AuthError)
    ensures
        error@ == unreachable_error(detail@),
{
    AuthError::Unavailable(String::from_str("Network error: ").concat(detail.as_str()))
}

/// The error for a successful reply that lacks `missing`.
fn malformed(missing: &str) -> (error: AuthError)
    ensures
        error@ == AuthErrorModel::MalformedUpstreamResponse(missing@),
{
    AuthError::MalformedUpstreamResponse(String::from_str(missing))
}

/// Takes the session out of a body that must hold all of it.
pub fn require_session(body: UpstreamSession) -> (found: Result<AuthResponse, AuthError>)
    ensures
        match found {
            Ok(session) => required_session(body@) == Ok::<SessionModel, AuthErrorModel>(
                session@,
            ),
            Err(error) => required_session(body@) == Err::<SessionModel, AuthErrorModel>(error@),
        },
{
    let UpstreamSession { access_token, refresh_token, user } = body;
    let access_token = match access_token {
        Some(token) => token,
        None => { return Err(malformed("access_token")); },
    };
    let refresh_token = match refresh_token {
        Some(token) => token,
        None => { return Err(malformed("refresh_token")); },
    };
    let user = match user {
        Some(user) => user,
        None => { return Err(malformed("user")); },
    };
    let UpstreamUser { id, email } = user;
    let id = match id {
        Some(id) => id,
        None => { return Err(malformed("user id")); },
    };
    let email = match email {
        Some(email) => email,
        None => { return Err(malformed("user email")); },
    };
    Ok(AuthResponse { access_token, refresh_token, user: User { id, email } })
}

/// Reads the body of a successful reply that owes a full session.
fn session_outcome(session: Option<UpstreamSession>) -> (outcome: Result<AuthResult, AuthError>)
    ensures
        outcome_model(outcome) == session_or_error(
            match session {
                Some(body) => Some(body@),
                None => None,
            },
        ),
{
    match session {
        None => Err(malformed("response body")),
        Some(body) => match require_session(body) {
            Ok(found) => Ok(AuthResult::Session(found)),
            Err(error) => Err(error),
        },
    }
}

/// Reads the provider's reply to a registration.
pub fn sign_up_outcome(reply: UpstreamReply) -> (outcome: Result<AuthResult, AuthError>)
    ensures
        outcome_model(outcome) == sign_up_result(reply@),
{
    match reply {
        UpstreamReply::Unreachable(detail) => Err(unreachable(detail)),
        UpstreamReply::Answered { status, error, session } => {
            if !is_success(status) {
                match error {
                    None => Err(malformed("error body")),
                    Some(shape) => Err(AuthError::Rejected(rejection_message(&shape))),
                }
            } else {
                let complete = match &session {
                    Some(body) => body.access_token.is_some() && body.refresh_token.is_some()
                        && body.user.is_some(),
                    None => true,
                };
                if complete {
                    session_outcome(session)
                } else {
                    Ok(AuthResult::ConfirmationPending)
                }
            }
        },
    }
}

/// Reads the provider's reply to a login.
pub fn sign_in_outcome(reply: UpstreamReply) -> (outcome: Result<AuthResult, AuthError>)
    ensures
        outcome_model(outcome) == sign_in_result(reply@),
{
    match reply {
        UpstreamReply::Unreachable(detail) => Err(unreachable(detail)),
        UpstreamReply::Answered { status, error, session } => {
            if !is_success(status) {
                if names_code(&error, "email_not_confirmed") {
                    Err(AuthError::EmailNotConfirmed)
                } else if status == 400 || status == 401 {
                    Err(AuthError::InvalidCredentials)
                } else {
                    Err(
                        AuthError::Unavailable(
                            String::from_str("Unable to sign in. Please try again later."),
                        ),
                    )
                }
            } else {
                session_outcome(session)
            }
        },
    }
}

/// Reads the provider's reply to a confirmation.
pub fn verify_otp_outcome(reply: UpstreamReply) -> (outcome: Result<AuthResult, AuthError>)
    ensures
        outcome_model(outcome) == verify_otp_result(reply@),
{
    match reply {
        UpstreamReply::Unreachable(detail) => Err(unreachable(detail)),
        UpstreamReply::Answered { status, error, session } => {
            if !is_success(status) {
                if names_code(&error, "otp_expired") {
                    Err(AuthError::ExpiredToken)
                } else {
                    Err(AuthError::InvalidToken)
                }
            } else {
                session_outcome(session)
            }
        },
    }
}

/// A successful reply to a registration never comes to an error because
/// tokens are missing: with both tokens and a user that has an id and an
/// address it is a session made of exactly those four texts, and without
/// any one of the tokens and the user it is a pending confirmation.
pub proof fn lemma_sign_up_session_or_pending(
    status: u16,
    error: Option<ErrorShapeModel>,
    body: UpstreamSessionModel,
)
    requires
        success_status(status),
    ensures
        has_token_set(body) && body.user->0.id is Some && body.user->0.email is Some
            ==> sign_up_result(
            UpstreamReplyModel::Answered { status, error, session: Some(body) },
        ) == Ok::<AuthResultModel, AuthErrorModel>(
            AuthResultModel::Session(
                SessionModel {
                    access_token: body.access_token->0,
                    refresh_token: body.refresh_token->0,
                    user: UserModel { id: body.user->0.id->0, email: body.user->0.email->0 },
                },
            ),
        ),
        !has_token_set(body) ==> sign_up_result(
            UpstreamReplyModel::Answered { status, error, session: Some(body) },
        ) == Ok::<AuthResultModel, AuthErrorModel>(AuthResultModel::ConfirmationPending),
{
}

/// A login refused with status 400 or 401 is an unconfirmed address where
/// the reply's error code says so, and a wrong address or password in
/// every other case, whatever else the reply holds.
pub proof fn lemma_sign_in_refusal(
    status: u16,
    error: Option<ErrorShapeModel>,
    session: Option<UpstreamSessionModel>,
)
    requires
        status == 400 || status == 401,
    ensures
        error_code_of(error) == Some("email_not_confirmed"@) ==> sign_in_result(
            UpstreamReplyModel::Answered { status, error, session },
        ) == Err::<AuthResultModel, AuthErrorModel>(AuthErrorModel::EmailNotConfirmed),
        error_code_of(error) != Some("email_not_confirmed"@) ==> sign_in_result(
            UpstreamReplyModel::Answered { status, error, session },
        ) == Err::<AuthResultModel, AuthErrorModel>(AuthErrorModel::InvalidCredentials),
{
}

/// A refused confirmation is an expired token where the reply's error
/// code says so, and an invalid token in every other case: the status
/// beyond its class, and the other error fields, decide nothing.
pub proof fn lemma_verify_otp_refusal(
    status: u16,
    error: Option<ErrorShapeModel>,
    session: Option<UpstreamSessionModel>,
)
    requires
        !success_status(status),
    ensures
        error_code_of(error) == Some("otp_expired"@) ==> verify_otp_result(
            UpstreamReplyModel::Answered { status, error, session },
        ) == Err::<AuthResultModel, AuthErrorModel>(AuthErrorModel::ExpiredToken),
        error_code_of(error) != Some("otp_expired"@) ==> verify_otp_result(
            UpstreamReplyModel::Answered { status, error, session },
        ) == Err::<AuthResultModel, AuthErrorModel>(AuthErrorModel::InvalidToken),
{
}

/// Login and confirmation never end in a pending confirmation: a reply
/// either yields a session or an error.
pub proof fn lemma_only_sign_up_is_pending(reply: UpstreamReplyModel)
    ensures
        sign_in_result(reply) != Ok::<AuthResultModel, AuthErrorModel>(
            AuthResultModel::ConfirmationPending,
        ),
        verify_otp_result(reply) != Ok::<AuthResultModel, AuthErrorModel>(
            AuthResultModel::ConfirmationPending,
        ),
{
}

} // verus!

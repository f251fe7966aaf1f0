//! The account lifecycle handlers: what each asks of the identity proxy and
//! how the proxy's answer is reported to the caller.
//!
//! A handler holds no state and decides nothing beyond one fixed table,
//! from the proxy's outcome to a transport status and a message.

use crate::supabase::auth::{
    sign_in_outcome, sign_in_result, sign_up_outcome, sign_up_result, verify_otp_outcome,
    verify_otp_result, AuthError as ProxyError, AuthErrorModel as ProxyErrorModel, AuthResult,
    AuthResultModel, ProxyRequest, SessionModel, UpstreamReply, UserModel,
};
use crate::supabase::auth::{email_redirect_target, error_text, redirect_target};
use crate::supabase::client::SupabaseClient;
use vstd::prelude::*;
use vstd::string::*;

verus! {

/// What a caller sends to register.
#[derive(Debug, Clone, PartialEq, Eq)]
pub struct SignUpRequest {
    pub email: String,
    pub password: String,
}

/// What a caller sends to log in.
#[derive(Debug, Clone, PartialEq, Eq)]
pub struct SignInRequest {
    pub email: String,
    pub password: String,
}

/// What a caller sends to confirm an address.
#[derive(Debug, Clone, PartialEq, Eq)]
pub struct VerifyEmailRequest {
    pub token_hash: String,
    pub verification_type: String,
    pub email: Option<String>,
}

/// The user of a session, as the caller is told.
#[derive(Debug, Clone, PartialEq, Eq)]
pub struct User {
    pub id: String,
    pub email: String,
}

impl View for User {
    type V = UserModel;

    open spec fn view(&self) -> UserModel {
        UserModel { id: self.id@, email: self.email@ }
    }
}

/// A session, as the caller is told.
#[derive(Debug, Clone, PartialEq, Eq)]
pub struct AuthResponse {
    pub access_token: String,
    pub refresh_token: String,
    pub user: User,
}

impl View for AuthResponse {
    type V = SessionModel;

    open spec fn view(&self) -> SessionModel {
        SessionModel {
            access_token: self.access_token@,
            refresh_token: self.refresh_token@,
            user: self.user@,
        }
    }
}

/// The body of every response that is no session.
#[derive(Debug, Clone, PartialEq, Eq)]
pub struct ErrorResponse {
    pub error: String,
}

/// The outcomes of a handler that are no session, by transport status.
#[derive(Debug, Clone, PartialEq, Eq)]
pub enum AuthError {
    /// 400: the request was refused; the text says why.
    BadRequest(String),
    /// 401: the caller is not who they claim, or not yet.
    Unauthorized(String),
    /// 500: the failure is the server's or the provider's.
    InternalError(String),
    /// 202: the account was created and awaits confirmation.
    ConfirmationRequired(String),
}

/// A handler's outcome as text.
pub enum AuthErrorModel {
    BadRequest(Seq<char>),
    Unauthorized(Seq<char>),
    InternalError(Seq<char>),
    ConfirmationRequired(Seq<char>),
}

impl View for AuthError {
    type V = AuthErrorModel;

    open spec fn view(&self) -> AuthErrorModel {
        match self {
            AuthError::BadRequest(text) => AuthErrorModel::BadRequest(text@),
            AuthError::Unauthorized(text) => AuthErrorModel::Unauthorized(text@),
            AuthError::InternalError(text) => AuthErrorModel::InternalError(text@),
            AuthError::ConfirmationRequired(text) => AuthErrorModel::ConfirmationRequired(text@),
        }
    }
}

/// The transport status of an outcome.
pub open spec fn status_of(error: AuthErrorModel) -> u16 {
    match error {
        AuthErrorModel::BadRequest(_) => 400,
        AuthErrorModel::Unauthorized(_) => 401,
        AuthErrorModel::InternalError(_) => 500,
        AuthErrorModel::ConfirmationRequired(_) => 202,
    }
}

/// The message of an outcome.
pub open spec fn text_of(error: AuthErrorModel) -> Seq<char> {
    match error {
        AuthErrorModel::BadRequest(text) => text,
        AuthErrorModel::Unauthorized(text) => text,
        AuthErrorModel::InternalError(text) => text,
        AuthErrorModel::ConfirmationRequired(text) => text,
    }
}

/// What a caller reads after a registration that awaits confirmation.
pub open spec fn confirmation_text() -> Seq<char> {
    "Account created! Please check your email to confirm your account before signing in."@
}

/// What a caller reads when the failure is not theirs. It says nothing of
/// what failed.
pub open spec fn internal_text() -> Seq<char> {
    "Something went wrong on our side. Please try again later."@
}

/// The fixed table from the proxy's errors to transport outcomes. A
/// refusal that the caller can mend goes out with its own message; a
/// failure that is not the caller's goes out with one fixed message.
pub open spec fn transport_of(error: ProxyErrorModel) -> AuthErrorModel {
    match error {
        ProxyErrorModel::EmailNotConfirmed
        | ProxyErrorModel::InvalidCredentials
        | ProxyErrorModel::InvalidToken
        | ProxyErrorModel::ExpiredToken => AuthErrorModel::Unauthorized(error_text(error)),
        ProxyErrorModel::Rejected(_) => AuthErrorModel::BadRequest(error_text(error)),
        ProxyErrorModel::MalformedUpstreamResponse(_)
        | ProxyErrorModel::Unavailable(_) => AuthErrorModel::InternalError(internal_text()),
    }
}

/// What a handler answers for each outcome of the proxy.
pub open spec fn response_of(outcome: Result<AuthResultModel, ProxyErrorModel>) -> Result<
    SessionModel,
    AuthErrorModel,
> {
    match outcome {
        Ok(AuthResultModel::Session(session)) => Ok(session),
        Ok(AuthResultModel::ConfirmationPending) => Err(
            AuthErrorModel::ConfirmationRequired(confirmation_text()),
        ),
        Err(error) => Err(transport_of(error)),
    }
}

/// A handler's answer as text.
pub open spec fn response_model(response: Result<AuthResponse, AuthError>) -> Result<
    SessionModel,
    AuthErrorModel,
> {
    match response {
        Ok(session) => Ok(session@),
        Err(error) => Err(error@),
    }
}

impl AuthError {
    /// The transport status.
    pub fn status(&self) -> (code: u16)
        ensures
            code == status_of(self@),
    {
        match self {
            AuthError::BadRequest(_) => 400,
            AuthError::Unauthorized(_) => 401,
            AuthError::InternalError(_) => 500,
            AuthError::ConfirmationRequired(_) => 202,
        }
    }

    /// The status and the body of the response that reports this outcome.
    pub fn into_response(self) -> (response: (u16, ErrorResponse))
        ensures
            response.0 == status_of(self@),
            response.1.error@ == text_of(self@),
    {
        match self {
            AuthError::BadRequest(text) => (400, ErrorResponse { error: text }),
            AuthError::Unauthorized(text) => (401, ErrorResponse { error: text }),
            AuthError::InternalError(text) => (500, ErrorResponse { error: text }),
            AuthError::ConfirmationRequired(text) => (202, ErrorResponse { error: text }),
        }
    }
}

/// The transport outcome of one error of the proxy.
pub fn transport_error(error: ProxyError) -> (reported: AuthError)
    ensures
        reported@ == transport_of(error@),
{
    match error {
        ProxyError::EmailNotConfirmed
        | ProxyError::InvalidCredentials
        | ProxyError::InvalidToken
        | ProxyError::ExpiredToken => AuthError::Unauthorized(error.message()),
        ProxyError::Rejected(reason) => AuthError::BadRequest(reason),
        ProxyError::MalformedUpstreamResponse(_) | ProxyError::Unavailable(_) => {
            AuthError::InternalError(
                String::from_str("Something went wrong on our side. Please try again later."),
            )
        },
    }
}

/// The answer of a handler for an outcome of the proxy.
pub fn respond(outcome: Result<AuthResult, ProxyError>) -> (response: Result<
    AuthResponse,
    AuthError,
>)
    ensures
        response_model(response) == response_of(crate::supabase::auth::outcome_model(outcome)),
{
    match outcome {
        Ok(AuthResult::Session(session)) => {
            let crate::supabase::auth::AuthResponse { access_token, refresh_token, user } = session;
            let crate::supabase::auth::User { id, email } = user;
            Ok(AuthResponse { access_token, refresh_token, user: User { id, email } })
        },
        Ok(AuthResult::ConfirmationPending) => Err(
            AuthError::ConfirmationRequired(
                String::from_str(
                    "Account created! Please check your email to confirm your account before signing in.",
                ),
            ),
        ),
        Err(error) => Err(transport_error(error)),
    }
}

/// What the registration handler asks of the provider. The confirmation
/// mail leads back to the callback path of `site_url`.
pub fn sign_up(payload: &SignUpRequest, client: &SupabaseClient, site_url: Option<&str>) -> (request:
    ProxyRequest)
    ensures
        request@ == (crate::supabase::auth::ProxyRequestModel {
            url: crate::supabase::client::auth_address(client.base_url(), "/signup"@),
            api_key: client.api_key(),
            body: crate::supabase::auth::RequestBodyModel::SignUp {
                email: payload.email@,
                password: payload.password@,
                email_redirect_to: redirect_target(
                    match site_url {
                        Some(site) => Some(site@),
                        None => None,
                    },
                ),
            },
        }),
{
    let target = email_redirect_target(site_url);
    client.sign_up(payload.email.as_str(), payload.password.as_str(), target.as_str())
}

/// What the registration handler answers for the provider's reply.
pub fn sign_up_response(reply: UpstreamReply) -> (response: Result<AuthResponse, AuthError>)
    ensures
        response_model(response) == response_of(sign_up_result(reply@)),
{
    respond(sign_up_outcome(reply))
}

/// What the login handler asks of the provider.
pub fn sign_in(payload: &SignInRequest, client: &SupabaseClient) -> (request: ProxyRequest)
    ensures
        request@ == (crate::supabase::auth::ProxyRequestModel {
            url: crate::supabase::client::auth_address(
                client.base_url(),
                "/token?grant_type=password"@,
            ),
            api_key: client.api_key(),
            body: crate::supabase::auth::RequestBodyModel::SignIn {
                email: payload.email@,
                password: payload.password@,
            },
        }),
{
    client.sign_in(payload.email.as_str(), payload.password.as_str())
}

/// What the login handler answers for the provider's reply.
pub fn sign_in_response(reply: UpstreamReply) -> (response: Result<AuthResponse, AuthError>)
    ensures
        response_model(response) == response_of(sign_in_result(reply@)),
{
    respond(sign_in_outcome(reply))
}

/// What the confirmation handler asks of the provider.
pub fn verify_email(payload: &VerifyEmailRequest, client: &SupabaseClient) -> (request:
    ProxyRequest)
    ensures
        request@ == (crate::supabase::auth::ProxyRequestModel {
            url: crate::supabase::client::auth_address(client.base_url(), "/verify"@),
            api_key: client.api_key(),
            body: crate::supabase::auth::RequestBodyModel::VerifyOtp {
                token_hash: payload.token_hash@,
                verification_type: payload.verification_type@,
                address: payload.email.deep_view(),
            },
        }),
{
    let address = match &payload.email {
        Some(address) => Some(address.as_str()),
        None => None,
    };
    client.verify_otp(payload.token_hash.as_str(), payload.verification_type.as_str(), address)
}

/// What the confirmation handler answers for the provider's reply.
pub fn verify_email_response(reply: UpstreamReply) -> (response: Result<AuthResponse, AuthError>)
    ensures
        response_model(response) == response_of(verify_otp_result(reply@)),
{
    respond(verify_otp_outcome(reply))
}

/// The table of transport statuses: a refusal that the caller can mend by
/// proving who they are is 401, a refused registration is 400, a failure of
/// the provider is 500, and a pending confirmation is 202 with its fixed
/// message.
pub proof fn lemma_transport_statuses(error: ProxyErrorModel)
    ensures
        status_of(transport_of(error)) == (match error {
            ProxyErrorModel::EmailNotConfirmed => 401u16,
            ProxyErrorModel::InvalidCredentials => 401u16,
            ProxyErrorModel::InvalidToken => 401u16,
            ProxyErrorModel::ExpiredToken => 401u16,
            ProxyErrorModel::Rejected(_) => 400u16,
            ProxyErrorModel::MalformedUpstreamResponse(_) => 500u16,
            ProxyErrorModel::Unavailable(_) => 500u16,
        }),
        response_of(Ok(AuthResultModel::ConfirmationPending)) == Err::<SessionModel, AuthErrorModel>(
            AuthErrorModel::ConfirmationRequired(confirmation_text()),
        ),
        status_of(AuthErrorModel::ConfirmationRequired(confirmation_text())) == 202,
{
}

/// A failure that is not the caller's is reported with one fixed message:
/// nothing of the provider's reply reaches the caller.
pub proof fn lemma_internal_failures_say_nothing(error: ProxyErrorModel)
    requires
        error is MalformedUpstreamResponse || error is Unavailable,
    ensures
        transport_of(error) == AuthErrorModel::InternalError(internal_text()),
{
}

} // verus!

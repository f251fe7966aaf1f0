use auth_gateway::supabase::auth::{
    email_redirect_target, is_success, rejection_message, require_session, sign_in_outcome,
    sign_up_outcome, verify_otp_outcome, AuthError, AuthResponse, AuthResult, ProxyRequest,
    RequestBody, UpstreamErrorShape, UpstreamReply, UpstreamSession, UpstreamUser, User,
};
use auth_gateway::supabase::client::SupabaseClient;

fn text(value: &str) -> Option<String> {
    Some(value.to_string())
}

fn no_error() -> UpstreamErrorShape {
    UpstreamErrorShape { error_code: None, msg: None, error_description: None, message: None }
}

fn code(value: &str) -> UpstreamErrorShape {
    UpstreamErrorShape { error_code: text(value), ..no_error() }
}

fn full_session() -> UpstreamSession {
    UpstreamSession {
        access_token: text("access"),
        refresh_token: text("refresh"),
        user: Some(UpstreamUser { id: text("user-1"), email: text("a@b.test") }),
    }
}

fn empty_session() -> UpstreamSession {
    UpstreamSession { access_token: None, refresh_token: None, user: None }
}

fn expected_session() -> AuthResponse {
    AuthResponse {
        access_token: "access".to_string(),
        refresh_token: "refresh".to_string(),
        user: User { id: "user-1".to_string(), email: "a@b.test".to_string() },
    }
}

fn answered(
    status: u16,
    error: Option<UpstreamErrorShape>,
    session: Option<UpstreamSession>,
) -> UpstreamReply {
    UpstreamReply::Answered { status, error, session }
}

fn malformed(missing: &str) -> AuthError {
    AuthError::MalformedUpstreamResponse(missing.to_string())
}

fn client() -> SupabaseClient {
    SupabaseClient::new(Some("https://p.example".to_string()), Some("anon".to_string()))
        .ok()
        .unwrap()
}

#[test]
fn success_statuses_are_the_two_hundreds() {
    assert!(!is_success(199));
    assert!(is_success(200));
    assert!(is_success(202));
    assert!(is_success(299));
    assert!(!is_success(300));
    assert!(!is_success(401));
    assert!(!is_success(0));
    assert!(!is_success(u16::MAX));
}

#[test]
fn sign_up_with_full_token_set_is_a_session() {
    let reply = answered(200, Some(no_error()), Some(full_session()));
    assert_eq!(sign_up_outcome(reply), Ok(AuthResult::Session(expected_session())));
}

#[test]
fn sign_up_without_tokens_is_pending_not_an_error() {
    let reply = answered(200, Some(no_error()), Some(empty_session()));
    assert_eq!(sign_up_outcome(reply), Ok(AuthResult::ConfirmationPending));
}

#[test]
fn sign_up_with_part_of_the_token_set_is_pending() {
    let only_access = UpstreamSession { access_token: text("access"), ..empty_session() };
    assert_eq!(
        sign_up_outcome(answered(201, None, Some(only_access))),
        Ok(AuthResult::ConfirmationPending)
    );
    let no_user = UpstreamSession { user: None, ..full_session() };
    assert_eq!(
        sign_up_outcome(answered(200, None, Some(no_user))),
        Ok(AuthResult::ConfirmationPending)
    );
    let no_refresh = UpstreamSession { refresh_token: None, ..full_session() };
    assert_eq!(
        sign_up_outcome(answered(200, None, Some(no_refresh))),
        Ok(AuthResult::ConfirmationPending)
    );
}

#[test]
fn sign_up_with_tokens_owes_the_user_id_and_address() {
    let no_id = UpstreamSession {
        user: Some(UpstreamUser { id: None, email: text("a@b.test") }),
        ..full_session()
    };
    assert_eq!(sign_up_outcome(answered(200, None, Some(no_id))), Err(malformed("user id")));
    let no_email = UpstreamSession {
        user: Some(UpstreamUser { id: text("user-1"), email: None }),
        ..full_session()
    };
    assert_eq!(sign_up_outcome(answered(200, None, Some(no_email))), Err(malformed("user email")));
}

#[test]
fn sign_up_refusal_takes_the_first_filled_message() {
    let all = UpstreamErrorShape {
        error_code: text("weak_password"),
        msg: text("from msg"),
        error_description: text("from description"),
        message: text("from message"),
    };
    assert_eq!(
        sign_up_outcome(answered(422, Some(all), None)),
        Err(AuthError::Rejected("from msg".to_string()))
    );
    let two = UpstreamErrorShape {
        error_description: text("from description"),
        message: text("from message"),
        ..no_error()
    };
    assert_eq!(
        sign_up_outcome(answered(400, Some(two), None)),
        Err(AuthError::Rejected("from description".to_string()))
    );
    let one = UpstreamErrorShape { message: text("from message"), ..no_error() };
    assert_eq!(
        sign_up_outcome(answered(500, Some(one), None)),
        Err(AuthError::Rejected("from message".to_string()))
    );
    assert_eq!(
        sign_up_outcome(answered(400, Some(no_error()), None)),
        Err(AuthError::Rejected("Sign up failed".to_string()))
    );
}

#[test]
fn sign_up_refusal_skips_empty_fields() {
    let shape = UpstreamErrorShape {
        msg: text(""),
        error_description: text(""),
        message: text("last"),
        ..no_error()
    };
    assert_eq!(rejection_message(&shape), "last");
    let empty = UpstreamErrorShape { msg: text(""), ..no_error() };
    assert_eq!(rejection_message(&empty), "Sign up failed");
}

#[test]
fn sign_up_with_an_unreadable_body_is_malformed() {
    assert_eq!(sign_up_outcome(answered(400, None, None)), Err(malformed("error body")));
    assert_eq!(sign_up_outcome(answered(200, None, None)), Err(malformed("response body")));
}

#[test]
fn sign_up_refusal_ignores_a_session_in_the_body() {
    let reply = answered(409, Some(no_error()), Some(full_session()));
    assert_eq!(sign_up_outcome(reply), Err(AuthError::Rejected("Sign up failed".to_string())));
}

#[test]
fn unreachable_provider_is_unavailable() {
    let detail = "connection refused".to_string();
    let expected = Err(AuthError::Unavailable("Network error: connection refused".to_string()));
    assert_eq!(sign_up_outcome(UpstreamReply::Unreachable(detail.clone())), expected);
    assert_eq!(sign_in_outcome(UpstreamReply::Unreachable(detail.clone())), expected);
    assert_eq!(verify_otp_outcome(UpstreamReply::Unreachable(detail)), expected);
    assert_eq!(
        sign_in_outcome(UpstreamReply::Unreachable(String::new())),
        Err(AuthError::Unavailable("Network error: ".to_string()))
    );
}

#[test]
fn error_messages() {
    assert_eq!(
        AuthError::EmailNotConfirmed.message(),
        "Please confirm your email address before signing in. Check your inbox for the confirmation link."
    );
    assert_eq!(AuthError::InvalidCredentials.message(), "Invalid email or password. Please try again.");
    assert_eq!(
        AuthError::InvalidToken.message(),
        "The confirmation link is invalid. Please sign up again."
    );
    assert_eq!(
        AuthError::ExpiredToken.message(),
        "The confirmation link has expired. Please sign up again to receive a new link."
    );
    assert_eq!(AuthError::Rejected("Email rate limit exceeded".to_string()).message(), "Email rate limit exceeded");
    assert_eq!(malformed("user id").message(), "Missing data: user id");
    assert_eq!(AuthError::Unavailable("Network error: timed out".to_string()).message(), "Network error: timed out");
}

#[test]
fn sign_in_unconfirmed_address() {
    let reply = answered(401, Some(code("email_not_confirmed")), None);
    assert_eq!(sign_in_outcome(reply), Err(AuthError::EmailNotConfirmed));
    let at_400 = answered(400, Some(code("email_not_confirmed")), None);
    assert_eq!(sign_in_outcome(at_400), Err(AuthError::EmailNotConfirmed));
    let at_500 = answered(500, Some(code("email_not_confirmed")), None);
    assert_eq!(sign_in_outcome(at_500), Err(AuthError::EmailNotConfirmed));
}

#[test]
fn sign_in_without_a_known_code_is_invalid_credentials() {
    assert_eq!(
        sign_in_outcome(answered(401, Some(no_error()), None)),
        Err(AuthError::InvalidCredentials)
    );
    assert_eq!(sign_in_outcome(answered(401, None, None)), Err(AuthError::InvalidCredentials));
    assert_eq!(
        sign_in_outcome(answered(400, Some(code("invalid_grant")), None)),
        Err(AuthError::InvalidCredentials)
    );
    assert_eq!(
        sign_in_outcome(answered(401, Some(code("Email_Not_Confirmed")), None)),
        Err(AuthError::InvalidCredentials)
    );
}

#[test]
fn sign_in_other_refusals_are_unavailable() {
    let expected =
        Err(AuthError::Unavailable("Unable to sign in. Please try again later.".to_string()));
    assert_eq!(sign_in_outcome(answered(500, Some(no_error()), None)), expected);
    assert_eq!(sign_in_outcome(answered(403, None, None)), expected);
    assert_eq!(sign_in_outcome(answered(429, Some(code("over_request_rate_limit")), None)), expected);
    assert_eq!(sign_in_outcome(answered(199, None, None)), expected);
    assert_eq!(sign_in_outcome(answered(300, None, None)), expected);
}

#[test]
fn sign_in_success_owes_all_four_fields() {
    assert_eq!(
        sign_in_outcome(answered(200, None, Some(full_session()))),
        Ok(AuthResult::Session(expected_session()))
    );
    assert_eq!(sign_in_outcome(answered(200, None, None)), Err(malformed("response body")));
    assert_eq!(
        sign_in_outcome(answered(200, None, Some(empty_session()))),
        Err(malformed("access_token"))
    );
    let no_refresh = UpstreamSession { refresh_token: None, ..full_session() };
    assert_eq!(
        sign_in_outcome(answered(200, None, Some(no_refresh))),
        Err(malformed("refresh_token"))
    );
    let no_user = UpstreamSession { user: None, ..full_session() };
    assert_eq!(sign_in_outcome(answered(200, None, Some(no_user))), Err(malformed("user")));
    let no_id = UpstreamSession {
        user: Some(UpstreamUser { id: None, email: None }),
        ..full_session()
    };
    assert_eq!(sign_in_outcome(answered(200, None, Some(no_id))), Err(malformed("user id")));
    let no_email = UpstreamSession {
        user: Some(UpstreamUser { id: text("user-1"), email: None }),
        ..full_session()
    };
    assert_eq!(sign_in_outcome(answered(200, None, Some(no_email))), Err(malformed("user email")));
}

#[test]
fn sign_in_success_ignores_an_error_shape_in_the_body() {
    let reply = answered(200, Some(code("email_not_confirmed")), Some(full_session()));
    assert_eq!(sign_in_outcome(reply), Ok(AuthResult::Session(expected_session())));
}

#[test]
fn verify_otp_expired_token() {
    let reply = answered(400, Some(code("otp_expired")), None);
    assert_eq!(verify_otp_outcome(reply), Err(AuthError::ExpiredToken));
    let at_403 = answered(403, Some(code("otp_expired")), None);
    assert_eq!(verify_otp_outcome(at_403), Err(AuthError::ExpiredToken));
}

#[test]
fn verify_otp_every_other_refusal_is_an_invalid_token() {
    assert_eq!(
        verify_otp_outcome(answered(400, Some(no_error()), None)),
        Err(AuthError::InvalidToken)
    );
    assert_eq!(verify_otp_outcome(answered(400, None, None)), Err(AuthError::InvalidToken));
    assert_eq!(verify_otp_outcome(answered(401, None, None)), Err(AuthError::InvalidToken));
    assert_eq!(verify_otp_outcome(answered(500, None, None)), Err(AuthError::InvalidToken));
    assert_eq!(
        verify_otp_outcome(answered(422, Some(code("otp_disabled")), None)),
        Err(AuthError::InvalidToken)
    );
    assert_eq!(
        verify_otp_outcome(answered(400, Some(code("email_not_confirmed")), None)),
        Err(AuthError::InvalidToken)
    );
}

#[test]
fn verify_otp_success_owes_all_four_fields() {
    assert_eq!(
        verify_otp_outcome(answered(200, None, Some(full_session()))),
        Ok(AuthResult::Session(expected_session()))
    );
    assert_eq!(
        verify_otp_outcome(answered(200, None, Some(empty_session()))),
        Err(malformed("access_token"))
    );
    assert_eq!(verify_otp_outcome(answered(204, None, None)), Err(malformed("response body")));
}

#[test]
fn require_session_names_the_first_missing_field() {
    assert_eq!(require_session(full_session()), Ok(expected_session()));
    assert_eq!(require_session(empty_session()), Err(malformed("access_token")));
    let only_access = UpstreamSession { access_token: text("a"), ..empty_session() };
    assert_eq!(require_session(only_access), Err(malformed("refresh_token")));
}

#[test]
fn sign_up_request_names_endpoint_key_and_redirect() {
    let request = client().sign_up("a@b.test", "secret", "https://site.test/auth/callback");
    assert_eq!(
        request,
        ProxyRequest {
            url: "https://p.example/auth/v1/signup".to_string(),
            api_key: "anon".to_string(),
            body: RequestBody::SignUp {
                email: "a@b.test".to_string(),
                password: "secret".to_string(),
                email_redirect_to: "https://site.test/auth/callback".to_string(),
            },
        }
    );
}

#[test]
fn sign_in_request_names_the_token_endpoint() {
    let request = client().sign_in("a@b.test", "secret");
    assert_eq!(
        request,
        ProxyRequest {
            url: "https://p.example/auth/v1/token?grant_type=password".to_string(),
            api_key: "anon".to_string(),
            body: RequestBody::SignIn {
                email: "a@b.test".to_string(),
                password: "secret".to_string(),
            },
        }
    );
}

#[test]
fn verify_otp_request_carries_the_address_only_when_given() {
    let with = client().verify_otp("hash", "signup", Some("a@b.test"));
    assert_eq!(
        with,
        ProxyRequest {
            url: "https://p.example/auth/v1/verify".to_string(),
            api_key: "anon".to_string(),
            body: RequestBody::VerifyOtp {
                token_hash: "hash".to_string(),
                verification_type: "signup".to_string(),
                address: Some("a@b.test".to_string()),
            },
        }
    );
    let without = client().verify_otp("hash", "email", None);
    assert_eq!(
        without.body,
        RequestBody::VerifyOtp {
            token_hash: "hash".to_string(),
            verification_type: "email".to_string(),
            address: None,
        }
    );
}

#[test]
fn redirect_target_is_the_callback_of_the_site() {
    assert_eq!(email_redirect_target(Some("https://site.test")), "https://site.test/auth/callback");
    assert_eq!(email_redirect_target(None), "http://localhost:5173/auth/callback");
    assert_eq!(email_redirect_target(Some("")), "/auth/callback");
}

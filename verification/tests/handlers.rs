use auth_gateway::auth::{
    respond, sign_in, sign_in_response, sign_up, sign_up_response, transport_error, verify_email,
    verify_email_response, AuthError, AuthResponse, ErrorResponse, SignInRequest, SignUpRequest,
    User, VerifyEmailRequest,
};
use auth_gateway::supabase::auth::{
    AuthError as ProxyError, AuthResponse as ProxySession, AuthResult, RequestBody,
    UpstreamErrorShape, UpstreamReply, UpstreamSession, UpstreamUser, User as ProxyUser,
};
use auth_gateway::supabase::client::SupabaseClient;

const INTERNAL: &str = "Something went wrong on our side. Please try again later.";
const PENDING: &str =
    "Account created! Please check your email to confirm your account before signing in.";

fn client() -> SupabaseClient {
    SupabaseClient::new(Some("https://p.example".to_string()), Some("anon".to_string()))
        .ok()
        .unwrap()
}

fn session_body() -> UpstreamSession {
    UpstreamSession {
        access_token: Some("access".to_string()),
        refresh_token: Some("refresh".to_string()),
        user: Some(UpstreamUser {
            id: Some("user-1".to_string()),
            email: Some("a@b.test".to_string()),
        }),
    }
}

fn told_session() -> AuthResponse {
    AuthResponse {
        access_token: "access".to_string(),
        refresh_token: "refresh".to_string(),
        user: User { id: "user-1".to_string(), email: "a@b.test".to_string() },
    }
}

fn shape(code: Option<&str>, msg: Option<&str>) -> UpstreamErrorShape {
    UpstreamErrorShape {
        error_code: code.map(str::to_string),
        msg: msg.map(str::to_string),
        error_description: None,
        message: None,
    }
}

#[test]
fn transport_table_statuses() {
    assert_eq!(transport_error(ProxyError::EmailNotConfirmed).status(), 401);
    assert_eq!(transport_error(ProxyError::InvalidCredentials).status(), 401);
    assert_eq!(transport_error(ProxyError::InvalidToken).status(), 401);
    assert_eq!(transport_error(ProxyError::ExpiredToken).status(), 401);
    assert_eq!(transport_error(ProxyError::Rejected("no".to_string())).status(), 400);
    assert_eq!(
        transport_error(ProxyError::MalformedUpstreamResponse("user".to_string())).status(),
        500
    );
    assert_eq!(transport_error(ProxyError::Unavailable("down".to_string())).status(), 500);
}

#[test]
fn transport_table_messages() {
    assert_eq!(
        transport_error(ProxyError::EmailNotConfirmed),
        AuthError::Unauthorized(
            "Please confirm your email address before signing in. Check your inbox for the confirmation link."
                .to_string()
        )
    );
    assert_eq!(
        transport_error(ProxyError::InvalidCredentials),
        AuthError::Unauthorized("Invalid email or password. Please try again.".to_string())
    );
    assert_eq!(
        transport_error(ProxyError::InvalidToken),
        AuthError::Unauthorized(
            "The confirmation link is invalid. Please sign up again.".to_string()
        )
    );
    assert_eq!(
        transport_error(ProxyError::ExpiredToken),
        AuthError::Unauthorized(
            "The confirmation link has expired. Please sign up again to receive a new link."
                .to_string()
        )
    );
    assert_eq!(
        transport_error(ProxyError::Rejected("Password too weak".to_string())),
        AuthError::BadRequest("Password too weak".to_string())
    );
}

#[test]
fn internal_failures_do_not_echo_their_detail() {
    assert_eq!(
        transport_error(ProxyError::MalformedUpstreamResponse("access_token".to_string())),
        AuthError::InternalError(INTERNAL.to_string())
    );
    assert_eq!(
        transport_error(ProxyError::Unavailable("tcp connect error 10.0.0.7".to_string())),
        AuthError::InternalError(INTERNAL.to_string())
    );
}

#[test]
fn pending_confirmation_is_accepted_with_its_message() {
    let response = respond(Ok(AuthResult::ConfirmationPending));
    assert_eq!(response, Err(AuthError::ConfirmationRequired(PENDING.to_string())));
    let (status, body) = response.err().unwrap().into_response();
    assert_eq!(status, 202);
    assert_eq!(body, ErrorResponse { error: PENDING.to_string() });
}

#[test]
fn session_is_passed_on_unchanged() {
    let session = ProxySession {
        access_token: "access".to_string(),
        refresh_token: "refresh".to_string(),
        user: ProxyUser { id: "user-1".to_string(), email: "a@b.test".to_string() },
    };
    assert_eq!(respond(Ok(AuthResult::Session(session))), Ok(told_session()));
}

#[test]
fn into_response_gives_status_and_body() {
    assert_eq!(
        AuthError::BadRequest("a".to_string()).into_response(),
        (400, ErrorResponse { error: "a".to_string() })
    );
    assert_eq!(
        AuthError::Unauthorized("b".to_string()).into_response(),
        (401, ErrorResponse { error: "b".to_string() })
    );
    assert_eq!(
        AuthError::InternalError("c".to_string()).into_response(),
        (500, ErrorResponse { error: "c".to_string() })
    );
    assert_eq!(
        AuthError::ConfirmationRequired("d".to_string()).into_response(),
        (202, ErrorResponse { error: "d".to_string() })
    );
}

#[test]
fn sign_up_handler_round() {
    let payload = SignUpRequest { email: "a@b.test".to_string(), password: "pw".to_string() };
    let request = sign_up(&payload, &client(), Some("https://site.test"));
    assert_eq!(request.url, "https://p.example/auth/v1/signup");
    assert_eq!(request.api_key, "anon");
    assert_eq!(
        request.body,
        RequestBody::SignUp {
            email: "a@b.test".to_string(),
            password: "pw".to_string(),
            email_redirect_to: "https://site.test/auth/callback".to_string(),
        }
    );
    let local = sign_up(&payload, &client(), None);
    assert_eq!(
        local.body,
        RequestBody::SignUp {
            email: "a@b.test".to_string(),
            password: "pw".to_string(),
            email_redirect_to: "http://localhost:5173/auth/callback".to_string(),
        }
    );

    let created =
        UpstreamReply::Answered { status: 200, error: None, session: Some(session_body()) };
    assert_eq!(sign_up_response(created), Ok(told_session()));

    let pending = UpstreamReply::Answered {
        status: 200,
        error: None,
        session: Some(UpstreamSession { access_token: None, refresh_token: None, user: None }),
    };
    assert_eq!(
        sign_up_response(pending),
        Err(AuthError::ConfirmationRequired(PENDING.to_string()))
    );

    let refused = UpstreamReply::Answered {
        status: 422,
        error: Some(shape(None, Some("User already registered"))),
        session: None,
    };
    assert_eq!(
        sign_up_response(refused),
        Err(AuthError::BadRequest("User already registered".to_string()))
    );
}

#[test]
fn sign_in_handler_round() {
    let payload = SignInRequest { email: "a@b.test".to_string(), password: "pw".to_string() };
    let request = sign_in(&payload, &client());
    assert_eq!(request.url, "https://p.example/auth/v1/token?grant_type=password");
    assert_eq!(
        request.body,
        RequestBody::SignIn { email: "a@b.test".to_string(), password: "pw".to_string() }
    );

    let wrong = UpstreamReply::Answered { status: 400, error: None, session: None };
    assert_eq!(
        sign_in_response(wrong),
        Err(AuthError::Unauthorized("Invalid email or password. Please try again.".to_string()))
    );
    let down = UpstreamReply::Answered { status: 503, error: None, session: None };
    assert_eq!(sign_in_response(down), Err(AuthError::InternalError(INTERNAL.to_string())));
    let gone = UpstreamReply::Unreachable("dns failure".to_string());
    assert_eq!(sign_in_response(gone), Err(AuthError::InternalError(INTERNAL.to_string())));
    let ok = UpstreamReply::Answered { status: 200, error: None, session: Some(session_body()) };
    assert_eq!(sign_in_response(ok), Ok(told_session()));
}

#[test]
fn verify_email_handler_round() {
    let payload = VerifyEmailRequest {
        token_hash: "hash".to_string(),
        verification_type: "signup".to_string(),
        email: None,
    };
    let request = verify_email(&payload, &client());
    assert_eq!(request.url, "https://p.example/auth/v1/verify");
    assert_eq!(
        request.body,
        RequestBody::VerifyOtp {
            token_hash: "hash".to_string(),
            verification_type: "signup".to_string(),
            address: None,
        }
    );
    let with_address = VerifyEmailRequest { email: Some("a@b.test".to_string()), ..payload };
    assert_eq!(
        verify_email(&with_address, &client()).body,
        RequestBody::VerifyOtp {
            token_hash: "hash".to_string(),
            verification_type: "signup".to_string(),
            address: Some("a@b.test".to_string()),
        }
    );

    let expired = UpstreamReply::Answered {
        status: 400,
        error: Some(shape(Some("otp_expired"), None)),
        session: None,
    };
    assert_eq!(
        verify_email_response(expired),
        Err(AuthError::Unauthorized(
            "The confirmation link has expired. Please sign up again to receive a new link."
                .to_string()
        ))
    );
    let invalid = UpstreamReply::Answered { status: 400, error: None, session: None };
    assert_eq!(
        verify_email_response(invalid),
        Err(AuthError::Unauthorized(
            "The confirmation link is invalid. Please sign up again.".to_string()
        ))
    );
    let incomplete = UpstreamReply::Answered {
        status: 200,
        error: None,
        session: Some(UpstreamSession { user: None, ..session_body() }),
    };
    assert_eq!(
        verify_email_response(incomplete),
        Err(AuthError::InternalError(INTERNAL.to_string()))
    );
}

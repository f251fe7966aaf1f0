//! Bearer-token verification and the decision on each request.
//!
//! A credential is verified against one signing policy. The signature and
//! the registered claims are checked by the `jsonwebtoken` crate; what the
//! subject means is decided by the `uuid` crate. Everything around those
//! calls is decided here: which part of the credential is the token, what
//! is asked of the token under each policy, and which error each refusal
//! comes to.

use crate::text::{strip_prefix, without_prefix};
use crate::trusted::{
    decode_payload, ec_decoding_key, ec_key, ec_point_readable, failure_of, json_member_text,
    json_text_member, parse_uuid, secret_decoding_key, secret_key, token_payload, uuid_of,
    validation_for, validation_from,
};
use vstd::prelude::*;
use vstd::string::*;

verus! {

/// The signature algorithms a policy can ask for.
#[derive(Debug, Clone, Copy, PartialEq, Eq, Structural)]
pub enum SignatureAlgorithm {
    /// ECDSA over P-256 with SHA-256.
    Es256,
    /// HMAC with SHA-256.
    Hs256,
}

/// Why the token library refused a token.
#[derive(Debug, Clone, Copy, PartialEq, Eq, Structural)]
pub enum DecodeFailure {
    /// The token does not have the shape of a signed token.
    InvalidToken,
    /// The signature does not match.
    InvalidSignature,
    /// The header's algorithm is not the one asked for, or does not fit the key.
    InvalidAlgorithm,
    /// No algorithm was asked for.
    MissingAlgorithm,
    /// A claim that was asked for is absent.
    MissingRequiredClaim,
    /// The expiry lies in the past.
    ExpiredSignature,
    /// The token is not valid yet.
    ImmatureSignature,
    /// The issuer is not an expected one.
    InvalidIssuer,
    /// The audience is not an expected one.
    InvalidAudience,
    /// The subject is not the expected one.
    InvalidSubject,
    /// A part of the token is not base64.
    Base64,
    /// A part of the token is not the JSON it should be.
    Json,
    /// Any other refusal.
    Other,
}

/// The three claims this library reads, each as the payload holds it:
/// `sub` and `email` where they are text, `exp` where it is a whole number
/// that is not negative.
#[derive(Debug, Clone, PartialEq, Eq)]
pub struct TokenPayload {
    pub sub: Option<String>,
    pub email: Option<String>,
    pub exp: Option<u64>,
}

/// A payload as text.
pub struct TokenPayloadModel {
    pub sub: Option<Seq<char>>,
    pub email: Option<Seq<char>>,
    pub exp: Option<u64>,
}

impl View for TokenPayload {
    type V = TokenPayloadModel;

    open spec fn view(&self) -> TokenPayloadModel {
        TokenPayloadModel {
            sub: self.sub.deep_view(),
            email: self.email.deep_view(),
            exp: self.exp,
        }
    }
}

/// The claims of an accepted token, all three of them.
#[derive(Debug, Clone, PartialEq, Eq)]
pub struct Claims {
    pub sub: String,
    pub email: String,
    pub exp: usize,
}

/// Claims as text.
pub struct ClaimsModel {
    pub sub: Seq<char>,
    pub email: Seq<char>,
    pub exp: usize,
}

impl View for Claims {
    type V = ClaimsModel;

    open spec fn view(&self) -> ClaimsModel {
        ClaimsModel { sub: self.sub@, email: self.email@, exp: self.exp }
    }
}

/// How credentials are validated in one deployment.
#[derive(Debug, Clone, PartialEq, Eq)]
pub enum SigningPolicy {
    /// An elliptic-curve public key, given by the two coordinates of its
    /// point. Tokens are signed with ES256 and must name the audience
    /// `authenticated`.
    Asymmetric { x: String, y: String },
    /// A shared secret. Tokens are signed with HS256; their audience is not
    /// looked at.
    Symmetric { secret: String },
}

/// A signing policy as text.
pub enum SigningPolicyModel {
    Asymmetric { x: Seq<char>, y: Seq<char> },
    Symmetric { secret: Seq<char> },
}

impl View for SigningPolicy {
    type V = SigningPolicyModel;

    open spec fn view(&self) -> SigningPolicyModel {
        match self {
            SigningPolicy::Asymmetric { x, y } => SigningPolicyModel::Asymmetric { x: x@, y: y@ },
            SigningPolicy::Symmetric { secret } => SigningPolicyModel::Symmetric {
                secret: secret@,
            },
        }
    }
}

/// The subject of a verified token. Only verification makes one.
#[derive(Debug, Clone, Copy, PartialEq, Eq, Structural)]
pub struct AuthenticatedIdentity {
    subject: u128,
}

impl View for AuthenticatedIdentity {
    type V = u128;

    closed spec fn view(&self) -> u128 {
        self.subject
    }
}

impl AuthenticatedIdentity {
    /// The identifier as a number, most significant byte first.
    pub fn as_u128(&self) -> (value: u128)
        ensures
            value == self@,
    {
        self.subject
    }
}

/// Why a request was not let through.
#[derive(Debug, Clone, Copy, PartialEq, Eq, Structural)]
pub enum VerificationError {
    /// The request carries no authorization header.
    MissingCredential,
    /// The header does not start with the scheme `Bearer `.
    MalformedCredential,
    /// The token is no signed token, or its signature or algorithm is not
    /// the policy's.
    SignatureInvalid,
    /// A claim is missing, expired or not the expected one.
    ClaimInvalid,
    /// The subject is no identifier.
    InvalidSubject,
    /// The signing policy is absent or cannot be used.
    ConfigurationMissing,
}

/// What is decided for one request.
#[derive(Debug, Clone, Copy, PartialEq, Eq, Structural)]
pub enum RequestDecision {
    /// The caller is authenticated; the identity goes to the handler.
    Dispatched(AuthenticatedIdentity),
    /// The request ends here.
    Rejected(VerificationError),
}

/// What the token library is asked to check of a token, besides its shape
/// and its expiry, which are always checked.
#[derive(Debug, Clone, PartialEq, Eq)]
pub struct TokenChecks {
    /// The one algorithm that the signature may be made with.
    pub algorithm: SignatureAlgorithm,
    /// The audience that the token must name; `None` where the audience is
    /// not looked at.
    pub audience: Option<String>,
    /// The seconds by which the clock may have passed the expiry.
    pub leeway_seconds: u64,
}

/// Token checks as text.
pub struct TokenChecksModel {
    pub algorithm: SignatureAlgorithm,
    pub audience: Option<Seq<char>>,
    pub leeway_seconds: u64,
}

impl View for TokenChecks {
    type V = TokenChecksModel;

    open spec fn view(&self) -> TokenChecksModel {
        TokenChecksModel {
            algorithm: self.algorithm,
            audience: self.audience.deep_view(),
            leeway_seconds: self.leeway_seconds,
        }
    }
}

/// The seconds by which the clock may have passed a token's expiry, under
/// both policies.
pub open spec fn clock_skew_seconds() -> u64 {
    60
}

/// What each policy asks of a token. The asymmetric policy asks for ES256
/// and for the audience `authenticated`, which must be there; the symmetric
/// policy asks for HS256 and nothing of the audience.
pub open spec fn checks_of(policy: SigningPolicyModel) -> TokenChecksModel {
    match policy {
        SigningPolicyModel::Asymmetric { .. } => TokenChecksModel {
            algorithm: SignatureAlgorithm::Es256,
            audience: Some(expected_audience()),
            leeway_seconds: clock_skew_seconds(),
        },
        SigningPolicyModel::Symmetric { .. } => TokenChecksModel {
            algorithm: SignatureAlgorithm::Hs256,
            audience: None,
            leeway_seconds: clock_skew_seconds(),
        },
    }
}

/// What is asked of a token in the token library's own terms: one value
/// for each setting of `jsonwebtoken::Validation` that this library sets.
/// Every other setting is left as the token library makes it.
#[derive(Debug, Clone, PartialEq, Eq)]
pub struct ValidationSettings {
    /// The one algorithm that the signature may be made with.
    pub algorithm: SignatureAlgorithm,
    /// The seconds by which the clock may have passed the expiry.
    pub leeway: u64,
    /// Whether the expiry is checked.
    pub validate_exp: bool,
    /// Whether the audience is looked at.
    pub validate_aud: bool,
    /// The audiences that are accepted where the audience is looked at.
    pub audiences: Vec<String>,
    /// The claims that a token must carry.
    pub required_spec_claims: Vec<String>,
}

/// Validation settings as text.
pub struct ValidationSettingsModel {
    pub algorithm: SignatureAlgorithm,
    pub leeway: u64,
    pub validate_exp: bool,
    pub validate_aud: bool,
    pub audiences: Seq<Seq<char>>,
    pub required_spec_claims: Seq<Seq<char>>,
}

impl View for ValidationSettings {
    type V = ValidationSettingsModel;

    open spec fn view(&self) -> ValidationSettingsModel {
        ValidationSettingsModel {
            algorithm: self.algorithm,
            leeway: self.leeway,
            validate_exp: self.validate_exp,
            validate_aud: self.validate_aud,
            audiences: self.audiences.deep_view(),
            required_spec_claims: self.required_spec_claims.deep_view(),
        }
    }
}

/// The settings that make the token library check what is asked.
///
/// The algorithm and the allowance for the clock are taken over, and the
/// expiry is always checked and must be there. An audience that is asked
/// for is the only one accepted and must be there too: without the second,
/// a token that names no audience at all would pass. Where no audience is
/// asked for, the audience is not looked at and none is accepted.
pub open spec fn settings_of(checks: TokenChecksModel) -> ValidationSettingsModel {
    ValidationSettingsModel {
        algorithm: checks.algorithm,
        leeway: checks.leeway_seconds,
        validate_exp: true,
        validate_aud: checks.audience is Some,
        audiences: match checks.audience {
            Some(audience) => seq![audience],
            None => Seq::empty(),
        },
        required_spec_claims: if checks.audience is Some {
            seq!["exp"@, "aud"@]
        } else {
            seq!["exp"@]
        },
    }
}

/// The scheme that a credential starts with.
pub open spec fn bearer_scheme() -> Seq<char> {
    "Bearer "@
}

/// The audience that the asymmetric policy asks for.
pub open spec fn expected_audience() -> Seq<char> {
    "authenticated"@
}

/// Whether a refusal by the token library is about a claim. Every other
/// refusal is about the token's shape, algorithm or signature.
pub open spec fn claim_failure(failure: DecodeFailure) -> bool {
    failure is MissingRequiredClaim || failure is ExpiredSignature || failure is ImmatureSignature
        || failure is InvalidIssuer || failure is InvalidAudience || failure is InvalidSubject
}

/// The error that a refusal by the token library comes to.
pub open spec fn refusal(failure: DecodeFailure) -> VerificationError {
    if claim_failure(failure) {
        VerificationError::ClaimInvalid
    } else {
        VerificationError::SignatureInvalid
    }
}

/// Whether a payload holds all three claims, the expiry in the machine's range.
pub open spec fn complete(payload: TokenPayloadModel) -> bool {
    payload.sub is Some && payload.email is Some && payload.exp is Some && payload.exp->0
        <= usize::MAX
}

/// What an accepted token's payload comes to: the subject as an identifier.
/// A payload that lacks a claim is a claim failure; a subject that is no
/// identifier is its own error.
pub open spec fn payload_verdict(payload: TokenPayloadModel) -> Result<u128, VerificationError> {
    if !complete(payload) {
        Err(VerificationError::ClaimInvalid)
    } else {
        match uuid_of(payload.sub->0) {
            Some(subject) => Ok(subject),
            None => Err(VerificationError::InvalidSubject),
        }
    }
}

/// What the token library's answer comes to.
pub open spec fn verdict(decoded: Result<TokenPayloadModel, DecodeFailure>) -> Result<
    u128,
    VerificationError,
> {
    match decoded {
        Ok(payload) => payload_verdict(payload),
        Err(failure) => Err(refusal(failure)),
    }
}

/// Whether a policy can be used at all: both coordinates of the point are
/// there and can be read, or the secret is not empty.
pub open spec fn usable(policy: SigningPolicyModel) -> bool {
    match policy {
        SigningPolicyModel::Asymmetric { x, y } => x.len() > 0 && y.len() > 0
            && ec_point_readable(x, y),
        SigningPolicyModel::Symmetric { secret } => secret.len() > 0,
    }
}

/// The key that a policy's signatures are checked with: the key of both
/// coordinates, or the key of the whole secret. `None` where the policy
/// cannot be used.
pub open spec fn key_of(policy: SigningPolicyModel) -> Option<jsonwebtoken::DecodingKey> {
    match policy {
        SigningPolicyModel::Asymmetric { x, y } => if x.len() > 0 && y.len() > 0 {
            ec_key(x, y)
        } else {
            None
        },
        SigningPolicyModel::Symmetric { secret } => if secret.len() > 0 {
            Some(secret_key(secret))
        } else {
            None
        },
    }
}

/// What the token library is handed for a policy besides the token: the
/// policy's key, and the settings that ask for the policy's checks. `None`
/// where the policy cannot be used.
pub open spec fn inputs_of(policy: SigningPolicyModel) -> Option<
    (jsonwebtoken::DecodingKey, jsonwebtoken::Validation),
> {
    match key_of(policy) {
        Some(key) => Some((key, validation_for(settings_of(checks_of(policy))))),
        None => None,
    }
}

/// The answers that verification can give for a credential under a policy.
///
/// Without the scheme the credential is malformed, whatever the policy.
/// With it, a policy that cannot be used is a configuration error. Else
/// the token library decides, by the key and the clock, whether it accepts
/// the token: its refusal is a signature or a claim failure, and on its
/// acceptance the answer is the one that the token's payload gives.
pub open spec fn admissible(
    credential: Seq<char>,
    policy: SigningPolicyModel,
    answer: Result<u128, VerificationError>,
) -> bool {
    match without_prefix(credential, bearer_scheme()) {
        None => answer == Err::<u128, VerificationError>(VerificationError::MalformedCredential),
        Some(token) => if !usable(policy) {
            answer == Err::<u128, VerificationError>(VerificationError::ConfigurationMissing)
        } else {
            answer == Err::<u128, VerificationError>(VerificationError::SignatureInvalid)
                || answer == Err::<u128, VerificationError>(VerificationError::ClaimInvalid)
                || answer == payload_verdict(token_payload(token))
        },
    }
}

/// An answer with the identity as a number.
pub open spec fn answer_model(answer: Result<AuthenticatedIdentity, VerificationError>) -> Result<
    u128,
    VerificationError,
> {
    match answer {
        Ok(identity) => Ok(identity@),
        Err(error) => Err(error),
    }
}

/// A decision on a request as an answer.
pub open spec fn decision_model(decision: RequestDecision) -> Result<u128, VerificationError> {
    match decision {
        RequestDecision::Dispatched(identity) => Ok(identity@),
        RequestDecision::Rejected(error) => Err(error),
    }
}

/// The token library's answer with the payload as text.
pub open spec fn decoded_model(decoded: Result<TokenPayload, DecodeFailure>) -> Result<
    TokenPayloadModel,
    DecodeFailure,
> {
    match decoded {
        Ok(payload) => Ok(payload@),
        Err(failure) => Err(failure),
    }
}

/// The error that a refusal by the token library comes to.
pub fn classify_failure(failure: DecodeFailure) -> (error: VerificationError)
    ensures
        error == refusal(failure),
{
    match failure {
        DecodeFailure::MissingRequiredClaim
        | DecodeFailure::ExpiredSignature
        | DecodeFailure::ImmatureSignature
        | DecodeFailure::InvalidIssuer
        | DecodeFailure::InvalidAudience
        | DecodeFailure::InvalidSubject => VerificationError::ClaimInvalid,
        DecodeFailure::InvalidToken
        | DecodeFailure::InvalidSignature
        | DecodeFailure::InvalidAlgorithm
        | DecodeFailure::MissingAlgorithm
        | DecodeFailure::Base64
        | DecodeFailure::Json
        | DecodeFailure::Other => VerificationError::SignatureInvalid,
    }
}

/// The claims of a payload that holds all three.
pub fn claims_of(payload: TokenPayload) -> (claims: Option<Claims>)
    ensures
        match claims {
            Some(found) => complete(payload@) && found@ == (ClaimsModel {
                sub: payload@.sub->0,
                email: payload@.email->0,
                exp: payload@.exp->0 as usize,
            }),
            None => !complete(payload@),
        },
{
    let TokenPayload { sub, email, exp } = payload;
    match (sub, email, exp) {
        (Some(sub), Some(email), Some(exp)) => {
            if exp <= usize::MAX as u64 {
                Some(Claims { sub, email, exp: exp as usize })
            } else {
                None
            }
        },
        _ => None,
    }
}

/// The identity that a set of claims names.
pub fn identity_of(claims: &Claims) -> (answer: Result<AuthenticatedIdentity, VerificationError>)
    ensures
        answer_model(answer) == (match uuid_of(claims@.sub) {
            Some(subject) => Ok::<u128, VerificationError>(subject),
            None => Err::<u128, VerificationError>(VerificationError::InvalidSubject),
        }),
{
    match parse_uuid(claims.sub.as_str()) {
        Some(subject) => Ok(AuthenticatedIdentity { subject }),
        None => Err(VerificationError::InvalidSubject),
    }
}

/// The answer that the token library's answer comes to.
pub fn identity_from(decoded: Result<TokenPayload, DecodeFailure>) -> (answer: Result<
    AuthenticatedIdentity,
    VerificationError,
>)
    ensures
        answer_model(answer) == verdict(decoded_model(decoded)),
{
    match decoded {
        Err(failure) => Err(classify_failure(failure)),
        Ok(payload) => match claims_of(payload) {
            None => Err(VerificationError::ClaimInvalid),
            Some(claims) => identity_of(&claims),
        },
    }
}

impl SigningPolicy {
    /// The key that signatures are checked with; `None` where the policy
    /// cannot be used.
    fn key(&self) -> (key: Option<jsonwebtoken::DecodingKey>)
        ensures
            key == key_of(self@),
            key is Some <==> usable(self@),
    {
        match self {
            SigningPolicy::Asymmetric { x, y } => {
                if x.as_str().is_empty() || y.as_str().is_empty() {
                    return None;
                }
                match ec_decoding_key(x.as_str(), y.as_str()) {
                    Ok(key) => Some(key),
                    Err(_) => None,
                }
            },
            SigningPolicy::Symmetric { secret } => {
                if secret.as_str().is_empty() {
                    None
                } else {
                    Some(secret_decoding_key(secret.as_str()))
                }
            },
        }
    }

    /// What this policy asks of a token.
    pub fn checks(&self) -> (checks: TokenChecks)
        ensures
            checks@ == checks_of(self@),
    {
        match self {
            SigningPolicy::Asymmetric { .. } => TokenChecks {
                algorithm: SignatureAlgorithm::Es256,
                audience: Some(String::from_str("authenticated")),
                leeway_seconds: 60,
            },
            SigningPolicy::Symmetric { .. } => TokenChecks {
                algorithm: SignatureAlgorithm::Hs256,
                audience: None,
                leeway_seconds: 60,
            },
        }
    }
}

/// The checks in the token library's terms. An audience that is asked for
/// is also required to be there; one that is not asked for is not looked at.
fn validation_of(checks: &TokenChecks) -> (settings: ValidationSettings)
    ensures
        settings@ == settings_of(checks@),
{
    let mut required_spec_claims: Vec<String> = Vec::new();
    required_spec_claims.push(String::from_str("exp"));
    let mut audiences: Vec<String> = Vec::new();
    let validate_aud = match &checks.audience {
        Some(audience) => {
            audiences.push(audience.clone());
            required_spec_claims.push(String::from_str("aud"));
            true
        },
        None => false,
    };
    let settings = ValidationSettings {
        algorithm: checks.algorithm,
        leeway: checks.leeway_seconds,
        validate_exp: true,
        validate_aud,
        audiences,
        required_spec_claims,
    };
    assert(settings@.audiences =~= settings_of(checks@).audiences);
    assert(settings@.required_spec_claims =~= settings_of(checks@).required_spec_claims);
    settings
}

/// The key and the settings that the token library is handed for a policy.
fn decoding_inputs(policy: &SigningPolicy) -> (made: Option<
    (jsonwebtoken::DecodingKey, jsonwebtoken::Validation),
>)
    ensures
        made == inputs_of(policy@),
        made is Some <==> usable(policy@),
{
    match policy.key() {
        Some(key) => {
            let settings = validation_of(&policy.checks());
            Some((key, validation_from(&settings)))
        },
        None => None,
    }
}

/// Verifies a credential under a policy.
///
/// The token is what follows the scheme `Bearer `. The token library checks
/// it with the policy's key against the settings of
/// [`SigningPolicy::checks`] and the clock; the subject of an accepted
/// token is then read as an identifier.
pub fn verify(credential: &str, policy: &SigningPolicy) -> (answer: Result<
    AuthenticatedIdentity,
    VerificationError,
>)
    ensures
        admissible(credential@, policy@, answer_model(answer)),
        without_prefix(credential@, bearer_scheme()) is None ==> answer == Err::<
            AuthenticatedIdentity,
            VerificationError,
        >(VerificationError::MalformedCredential),
{
    let token = match strip_prefix(credential, "Bearer ") {
        Some(token) => token,
        None => { return Err(VerificationError::MalformedCredential); },
    };
    let (key, validation) = match decoding_inputs(policy) {
        Some(inputs) => inputs,
        None => { return Err(VerificationError::ConfigurationMissing); },
    };
    let decoded = match decode_payload(token, &key, &validation) {
        Ok(payload) => Ok(payload),
        Err(error) => Err(failure_of(&error)),
    };
    identity_from(decoded)
}

/// Decides on one request.
///
/// A request starts with its authorization header, goes on to the
/// credential taken from it, then to the verified identity, and is
/// dispatched with that identity. The first step that fails ends it: no
/// header is a missing credential, and every failure of verification is
/// the error that [`verify`] gives. Nothing is tried twice.
pub fn auth_middleware(authorization: Option<&str>, policy: &SigningPolicy) -> (decision:
    RequestDecision)
    ensures
        match authorization {
            None => decision == RequestDecision::Rejected(VerificationError::MissingCredential),
            Some(credential) => admissible(credential@, policy@, decision_model(decision)),
        },
{
    match authorization {
        None => RequestDecision::Rejected(VerificationError::MissingCredential),
        Some(credential) => match verify(credential, policy) {
            Ok(identity) => RequestDecision::Dispatched(identity),
            Err(error) => RequestDecision::Rejected(error),
        },
    }
}

/// The policy that a deployment's configuration gives: the public key of
/// the JSON document, or the shared secret. Exactly one of the two has to
/// be there, and it has to be usable.
pub open spec fn configured_policy(jwk: Option<Seq<char>>, secret: Option<Seq<char>>) -> Result<
    SigningPolicyModel,
    VerificationError,
> {
    match (jwk, secret) {
        (Some(document), None) => match (
            json_member_text(document, "x"@),
            json_member_text(document, "y"@),
        ) {
            (Some(x), Some(y)) => if usable(SigningPolicyModel::Asymmetric { x, y }) {
                Ok(SigningPolicyModel::Asymmetric { x, y })
            } else {
                Err(VerificationError::ConfigurationMissing)
            },
            _ => Err(VerificationError::ConfigurationMissing),
        },
        (None, Some(shared)) => if usable(SigningPolicyModel::Symmetric { secret: shared }) {
            Ok(SigningPolicyModel::Symmetric { secret: shared })
        } else {
            Err(VerificationError::ConfigurationMissing)
        },
        _ => Err(VerificationError::ConfigurationMissing),
    }
}

impl SigningPolicy {
    /// Reads the policy from the configuration, once, when the process
    /// starts. Every failure is a missing configuration.
    pub fn load(jwk_json: Option<&str>, secret: Option<&str>) -> (loaded: Result<
        SigningPolicy,
        VerificationError,
    >)
        ensures
            match loaded {
                Ok(policy) => configured_policy(
                    match jwk_json {
                        Some(document) => Some(document@),
                        None => None,
                    },
                    match secret {
                        Some(shared) => Some(shared@),
                        None => None,
                    },
                ) == Ok::<SigningPolicyModel, VerificationError>(policy@) && usable(policy@),
                Err(error) => configured_policy(
                    match jwk_json {
                        Some(document) => Some(document@),
                        None => None,
                    },
                    match secret {
                        Some(shared) => Some(shared@),
                        None => None,
                    },
                ) == Err::<SigningPolicyModel, VerificationError>(error),
            },
    {
        match (jwk_json, secret) {
            (Some(document), None) => {
                let x = match json_text_member(document, "x") {
                    Some(x) => x,
                    None => { return Err(VerificationError::ConfigurationMissing); },
                };
                let y = match json_text_member(document, "y") {
                    Some(y) => y,
                    None => { return Err(VerificationError::ConfigurationMissing); },
                };
                let policy = SigningPolicy::Asymmetric { x, y };
                if policy.key().is_some() {
                    Ok(policy)
                } else {
                    Err(VerificationError::ConfigurationMissing)
                }
            },
            (None, Some(shared)) => {
                let policy = SigningPolicy::Symmetric { secret: String::from_str(shared) };
                if policy.key().is_some() {
                    Ok(policy)
                } else {
                    Err(VerificationError::ConfigurationMissing)
                }
            },
            _ => Err(VerificationError::ConfigurationMissing),
        }
    }
}

/// The transport status that an error is reported with.
pub open spec fn status_of(error: VerificationError) -> u16 {
    if error is ConfigurationMissing {
        500
    } else {
        401
    }
}

/// What a caller reads when a token is refused, whatever the reason.
pub open spec fn refused_token_text() -> Seq<char> {
    "Invalid or expired token"@
}

/// The message that an error is reported with. A refused token reads the
/// same whether its signature, a claim or its subject failed: which of the
/// three it was is for the log, and a caller learns nothing of how far a
/// token got.
pub open spec fn message_of(error: VerificationError) -> Seq<char> {
    match error {
        VerificationError::MissingCredential => "Missing authorization header"@,
        VerificationError::MalformedCredential => "Invalid authorization header format"@,
        VerificationError::SignatureInvalid
        | VerificationError::ClaimInvalid
        | VerificationError::InvalidSubject => refused_token_text(),
        VerificationError::ConfigurationMissing => "Server configuration error"@,
    }
}

impl VerificationError {
    /// The transport status: 500 for a missing configuration, 401 for
    /// everything else.
    pub fn status(&self) -> (code: u16)
        ensures
            code == status_of(*self),
    {
        match self {
            VerificationError::ConfigurationMissing => 500,
            _ => 401,
        }
    }

    /// The text of the `error` member of the response body.
    pub fn message(&self) -> (text: String)
        ensures
            text@ == message_of(*self),
    {
        match self {
            VerificationError::MissingCredential => String::from_str(
                "Missing authorization header",
            ),
            VerificationError::MalformedCredential => String::from_str(
                "Invalid authorization header format",
            ),
            VerificationError::SignatureInvalid
            | VerificationError::ClaimInvalid
            | VerificationError::InvalidSubject => String::from_str("Invalid or expired token"),
            VerificationError::ConfigurationMissing => String::from_str(
                "Server configuration error",
            ),
        }
    }
}

/// A credential without the scheme is malformed under every policy, and
/// the request is reported as unauthorized.
pub proof fn lemma_missing_scheme_is_malformed(
    credential: Seq<char>,
    policy: SigningPolicyModel,
    answer: Result<u128, VerificationError>,
)
    requires
        !bearer_scheme().is_prefix_of(credential),
        admissible(credential, policy, answer),
    ensures
        answer == Err::<u128, VerificationError>(VerificationError::MalformedCredential),
        status_of(VerificationError::MalformedCredential) == 401,
{
}

/// A token that the token library refuses for its signature is a signature
/// failure, and so is every refusal that is not about a claim.
pub proof fn lemma_signature_refusal(failure: DecodeFailure)
    ensures
        verdict(Err(DecodeFailure::InvalidSignature)) == Err::<u128, VerificationError>(
            VerificationError::SignatureInvalid,
        ),
        !claim_failure(failure) ==> verdict(Err(failure)) == Err::<u128, VerificationError>(
            VerificationError::SignatureInvalid,
        ),
{
}

/// A token that the token library refuses for its audience or its expiry
/// is a claim failure, and so is every refusal that is about a claim.
pub proof fn lemma_claim_refusal(failure: DecodeFailure)
    ensures
        verdict(Err(DecodeFailure::InvalidAudience)) == Err::<u128, VerificationError>(
            VerificationError::ClaimInvalid,
        ),
        verdict(Err(DecodeFailure::ExpiredSignature)) == Err::<u128, VerificationError>(
            VerificationError::ClaimInvalid,
        ),
        claim_failure(failure) ==> verdict(Err(failure)) == Err::<u128, VerificationError>(
            VerificationError::ClaimInvalid,
        ),
{
}

/// An accepted token with all its claims whose subject is no identifier is
/// an invalid subject, and nothing else.
pub proof fn lemma_unreadable_subject(payload: TokenPayloadModel)
    requires
        complete(payload),
        uuid_of(payload.sub->0) is None,
    ensures
        verdict(Ok(payload)) == Err::<u128, VerificationError>(VerificationError::InvalidSubject),
{
}

/// An accepted token with all its claims and a subject that is an
/// identifier yields that identifier.
pub proof fn lemma_accepted_token_yields_subject(payload: TokenPayloadModel)
    requires
        complete(payload),
        uuid_of(payload.sub->0) is Some,
    ensures
        verdict(Ok(payload)) == Ok::<u128, VerificationError>(uuid_of(payload.sub->0)->0),
{
}

/// Verifying one credential twice under one policy cannot yield two
/// identities: where both answers are identities, they are the same.
pub proof fn lemma_verify_twice_same_identity(
    credential: Seq<char>,
    policy: SigningPolicyModel,
    first: Result<AuthenticatedIdentity, VerificationError>,
    second: Result<AuthenticatedIdentity, VerificationError>,
)
    requires
        admissible(credential, policy, answer_model(first)),
        admissible(credential, policy, answer_model(second)),
        first is Ok,
        second is Ok,
    ensures
        first == second,
{
}

/// The two policies differ in the algorithm and in the audience, and in
/// nothing else that is asked of a token: only the asymmetric policy asks
/// for an audience, and it asks for `authenticated`.
pub proof fn lemma_policies_differ_in_audience(policy: SigningPolicyModel)
    ensures
        policy is Asymmetric ==> checks_of(policy).algorithm == SignatureAlgorithm::Es256
            && checks_of(policy).audience == Some(expected_audience()),
        policy is Symmetric ==> checks_of(policy).algorithm == SignatureAlgorithm::Hs256
            && checks_of(policy).audience is None,
        checks_of(policy).leeway_seconds == clock_skew_seconds(),
{
}

/// Whether an error is the refusal of a token: of its signature, of a
/// claim, or of its subject.
pub open spec fn token_refused(error: VerificationError) -> bool {
    error is SignatureInvalid || error is ClaimInvalid || error is InvalidSubject
}

/// A caller cannot tell from the response how far a token got: a failed
/// signature, a failed claim and a subject that is no identifier have one
/// status and one message, though they stay three errors.
pub proof fn lemma_token_failures_read_alike(first: VerificationError, second: VerificationError)
    requires
        token_refused(first),
        token_refused(second),
    ensures
        status_of(first) == 401,
        status_of(first) == status_of(second),
        message_of(first) == refused_token_text(),
        message_of(first) == message_of(second),
{
}

/// Every error of verification is reported as 401 but for a missing
/// configuration, which is the server's own failure.
pub proof fn lemma_rejections_are_unauthorized(error: VerificationError)
    ensures
        status_of(error) == 401 || status_of(error) == 500,
        status_of(error) == 500 <==> error is ConfigurationMissing,
{
}

} // verus!

//! The authentication gate in front of every protected route.
//!
//! A request either names a public route, and passes untouched, or must
//! carry a bearer token that validates. What passes the auth gate is an
//! [`AuthContext`]: the caller's identity for the life of the request.

use vstd::prelude::*;
use crate::error::{ApiError, AuthError};
use crate::role::Role;
use crate::text::starts_with;
use crate::token::{carries, outcome_view, validation, Claims, ClaimsView, TokenCodec};

verus! {

/// The identity of an authenticated caller. It is made once per request,
/// from validated claims, and never changed.
#[derive(Clone, Debug, PartialEq, Eq)]
pub struct AuthContext {
    pub user_id: i32,
    pub username: String,
    pub role: Role,
}

/// The mathematical content of an [`AuthContext`].
pub struct Identity {
    pub user_id: int,
    pub username: Seq<char>,
    pub role: Role,
}

impl View for AuthContext {
    type V = Identity;

    open spec fn view(&self) -> Identity {
        Identity { user_id: self.user_id as int, username: self.username@, role: self.role }
    }
}

/// The identity that claims assert. The expiry instant is not part of it.
pub open spec fn identity_of(claims: ClaimsView) -> Identity {
    Identity { user_id: claims.sub, username: claims.username, role: claims.role }
}

/// Whether a path is served without authentication: signing in, signing
/// up, the health probe and the API's documentation.
pub open spec fn is_public(path: Seq<char>) -> bool {
    ||| path == "/login"@
    ||| path == "/register"@
    ||| path == "/health"@
    ||| path == "/api-doc/openapi.json"@
    ||| "/swagger-ui"@.is_prefix_of(path)
}

/// What the auth gate makes of a bearer token, given how the token decodes: no
/// token and every validation failure are the same rejection.
pub open spec fn gate_outcome(
    bearer: Option<Seq<char>>,
    secret: Seq<u8>,
    now: int,
) -> Result<Identity, ApiError> {
    match bearer {
        None => Err(ApiError::Unauthenticated),
        Some(token) => match validation(secret, token, now) {
            Ok(claims) => Ok(identity_of(claims)),
            Err(_) => Err(ApiError::Unauthenticated),
        },
    }
}

/// The content of an authentication's result.
pub open spec fn identity_view(outcome: Result<AuthContext, ApiError>) -> Result<
    Identity,
    ApiError,
> {
    match outcome {
        Ok(context) => Ok(context@),
        Err(error) => Err(error),
    }
}

/// The text of an optional bearer value.
pub open spec fn bearer_view(bearer: Option<&str>) -> Option<Seq<char>> {
    match bearer {
        Some(token) => Some(token@),
        None => None,
    }
}

/// What the auth gate decides for a request.
#[derive(Clone, Debug, PartialEq, Eq)]
pub enum Admission {
    /// The route is public: the request passes without an identity.
    Public,
    /// The token validated: the request passes with this identity.
    Authenticated(AuthContext),
    /// The request stops here, before any handler runs.
    Rejected(ApiError),
}

/// The decision for a request to `path` that carries `bearer`.
pub open spec fn admitted(
    path: Seq<char>,
    bearer: Option<Seq<char>>,
    secret: Seq<u8>,
    now: int,
    admission: Admission,
) -> bool {
    if is_public(path) {
        admission is Public
    } else {
        match gate_outcome(bearer, secret, now) {
            Ok(identity) => admission matches Admission::Authenticated(context) && context@
                == identity,
            Err(error) => admission == Admission::Rejected(error),
        }
    }
}

impl AuthContext {
    /// The identity that validated claims assert.
    pub fn from_claims(claims: Claims) -> (context: AuthContext)
        ensures
            context@ == identity_of(claims@),
    {
        AuthContext { user_id: claims.sub, username: claims.username, role: claims.role }
    }
}

/// Whether a path is served without authentication.
pub fn is_public_route(path: &str) -> (public: bool)
    ensures
        public == is_public(path@),
{
    path.eq("/login") || path.eq("/register") || path.eq("/health") || path.eq(
        "/api-doc/openapi.json",
    ) || starts_with(path, "/swagger-ui")
}

/// Turns a validation's outcome into the caller's identity, or into the
/// one rejection that every failure gets.
pub fn identify(outcome: Result<Claims, AuthError>) -> (identity: Result<AuthContext, ApiError>)
    ensures
        identity_view(identity) == match outcome_view(outcome) {
            Ok(claims) => Ok::<Identity, ApiError>(identity_of(claims)),
            Err(_) => Err::<Identity, ApiError>(ApiError::Unauthenticated),
        },
{
    match outcome {
        Ok(claims) => Ok(AuthContext::from_claims(claims)),
        Err(reason) => Err(reason.outward()),
    }
}

/// Authenticates a request at the instant `now` from the bearer value of
/// its authorization header, if it has one.
pub fn authenticate_at(codec: &TokenCodec, bearer: Option<&str>, now: u64) -> (identity: Result<
    AuthContext,
    ApiError,
>)
    ensures
        identity_view(identity) == gate_outcome(bearer_view(bearer), codec.secret(), now as int),
{
    match bearer {
        None => Err(ApiError::Unauthenticated),
        Some(token) => identify(codec.validate_at(token, now)),
    }
}

/// Authenticates a request against the system clock. The outcome is the one
/// that `authenticate_at` gives for some instant; without a bearer value it
/// is the rejection, whatever the clock says.
pub fn auth_middleware(codec: &TokenCodec, bearer: Option<&str>) -> (identity: Result<
    AuthContext,
    ApiError,
>)
    ensures
        exists|now: u64| #[trigger]
            gate_outcome(bearer_view(bearer), codec.secret(), now as int) == identity_view(
                identity,
            ),
        bearer is None ==> identity == Err::<AuthContext, ApiError>(ApiError::Unauthenticated),
{
    match bearer {
        None => {
            assert(gate_outcome(bearer_view(bearer), codec.secret(), 0u64 as int) == Err::<
                Identity,
                ApiError,
            >(ApiError::Unauthenticated));
            Err(ApiError::Unauthenticated)
        },
        Some(token) => {
            let outcome = codec.validate(token);
            let identity = identify(outcome);
            proof {
                let now = choose|now: u64| #[trigger]
                    validation(codec.secret(), token@, now as int) == outcome_view(outcome);
                assert(gate_outcome(bearer_view(bearer), codec.secret(), now as int)
                    == identity_view(identity));
            }
            identity
        },
    }
}

/// Decides at the instant `now` whether a request to `path` passes the
/// gate. Public routes are recognised first; the token is not looked at for
/// them.
pub fn check_request_at(codec: &TokenCodec, path: &str, bearer: Option<&str>, now: u64) -> (admission:
    Admission)
    ensures
        admitted(path@, bearer_view(bearer), codec.secret(), now as int, admission),
{
    if is_public_route(path) {
        Admission::Public
    } else {
        match authenticate_at(codec, bearer, now) {
            Ok(context) => Admission::Authenticated(context),
            Err(error) => Admission::Rejected(error),
        }
    }
}

/// Decides against the system clock whether a request to `path` passes.
/// The decision is the one that `check_request_at` gives for some instant. A public
/// route passes, and a protected one without a bearer value is rejected,
/// whatever the clock says.
pub fn check_request(codec: &TokenCodec, path: &str, bearer: Option<&str>) -> (admission: Admission)
    ensures
        exists|now: u64| #[trigger]
            admitted(path@, bearer_view(bearer), codec.secret(), now as int, admission),
        is_public(path@) ==> admission is Public,
        !is_public(path@) && bearer is None ==> admission == Admission::Rejected(
            ApiError::Unauthenticated,
        ),
{
    let now = crate::token::system_time();
    let admission = check_request_at(codec, path, bearer, now);
    assert(admitted(path@, bearer_view(bearer), codec.secret(), now as int, admission));
    admission
}

/// The identity that a handler asks for. A handler that runs without one
/// was wired up behind no gate: the caller is told that it is not
/// authenticated, and nothing crashes.
pub fn require_identity(attached: Option<AuthContext>) -> (identity: Result<AuthContext, ApiError>)
    ensures
        identity == match attached {
            Some(context) => Ok::<AuthContext, ApiError>(context),
            None => Err::<AuthContext, ApiError>(ApiError::Unauthenticated),
        },
{
    match attached {
        Some(context) => Ok(context),
        None => Err(ApiError::Unauthenticated),
    }
}

/// A request without a bearer value is rejected as unauthenticated, which is
/// status 401, on every protected path, under every secret and at every
/// instant.
pub proof fn missing_token_is_rejected(path: Seq<char>, secret: Seq<u8>, now: int, admission: Admission)
    requires
        !is_public(path),
        admitted(path, None, secret, now, admission),
    ensures
        admission == Admission::Rejected(ApiError::Unauthenticated),
        crate::error::status_of(ApiError::Unauthenticated) == 401,
{
}

/// Whatever is wrong with a token, the auth gate's answer is the same rejection.
pub proof fn every_failure_is_unauthenticated(
    token: Seq<char>,
    secret: Seq<u8>,
    now: int,
)
    requires
        validation(secret, token, now) is Err,
    ensures
        gate_outcome(Some(token), secret, now) == Err::<Identity, ApiError>(
            ApiError::Unauthenticated,
        ),
{
}

/// A token presented at or after the expiry instant of the claims it carries
/// does not pass the auth gate.
pub proof fn expired_token_does_not_pass(
    secret: Seq<u8>,
    token: Seq<char>,
    claims: ClaimsView,
    now: int,
)
    requires
        i32::MIN <= claims.sub <= i32::MAX,
        0 <= claims.exp <= u64::MAX,
        carries(secret, token, claims),
        claims.exp <= now,
    ensures
        gate_outcome(Some(token), secret, now) == Err::<Identity, ApiError>(
            ApiError::Unauthenticated,
        ),
{
    crate::token::issued_token_expires(secret, token, claims, now);
}

/// A token presented before the expiry instant of the claims it carries
/// passes the auth gate with the identity that the claims assert.
pub proof fn live_token_passes(secret: Seq<u8>, token: Seq<char>, claims: ClaimsView, now: int)
    requires
        i32::MIN <= claims.sub <= i32::MAX,
        0 <= claims.exp <= u64::MAX,
        carries(secret, token, claims),
        now < claims.exp,
    ensures
        gate_outcome(Some(token), secret, now) == Ok::<Identity, ApiError>(identity_of(claims)),
{
    crate::token::issued_token_validates(secret, token, claims, now);
}

} // verus!

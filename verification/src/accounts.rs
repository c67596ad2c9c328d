//! Signing up and signing in.
//!
//! The account store is not part of this crate. Signing up is therefore a
//! sequence of decisions with the store's answers between them: the caller
//! performs what a [`RegisterStep`] asks for and hands the answer to the
//! next function. Signing in needs one answer only, the account found under
//! the handle.

use vstd::prelude::*;
use crate::error::ApiError;
use crate::hasher::{argon2_accepts, hash, verifies, verify};
use crate::models::{LoginRequest, RegisterRequest, User};
use crate::role::{role_name, role_named, Role};
use crate::store::StoreFailure;
use crate::text::{bytes_of, contains, occurs_in};
use crate::token::{carries, ClaimsView, TokenCodec, DEFAULT_TTL};

verus! {

/// A request to sign up whose role has been accepted.
#[derive(Clone, Debug, PartialEq, Eq)]
pub struct Candidate {
    pub username: String,
    pub password: String,
    pub email: String,
    pub role: Role,
}

/// An account that is ready to be stored: it holds a digest, never the
/// password.
#[derive(Clone, Debug, PartialEq, Eq)]
pub struct NewAccount {
    pub username: String,
    pub password_hash: String,
    pub email: String,
    pub role: Role,
}

/// Where a registration stands, and what is to be done next.
#[derive(Clone, Debug, PartialEq, Eq)]
pub enum RegisterStep {
    /// Ask the store whether the candidate's handle is taken, then go on
    /// with `after_lookup`.
    FindHandle(Candidate),
    /// Store this account, then go on with `after_insert`.
    Insert(NewAccount),
    /// The account exists now: answer with `CREATED`.
    Created,
    /// Nothing more is done: answer with this error.
    Refused(ApiError),
}

/// The status of a registration that succeeded.
pub const CREATED: u16 = 201;

/// The mark by which the store's message tells that a handle is taken.
pub open spec fn duplicate_mark() -> Seq<u8> {
    bytes_of("duplicate"@)
}

/// The candidate that a request with an accepted role makes.
pub open spec fn is_candidate_of(candidate: Candidate, request: RegisterRequest) -> bool {
    &&& candidate.username@ == request.username@
    &&& candidate.password@ == request.password@
    &&& candidate.email@ == request.email@
    &&& role_named(request.role@) == Some(candidate.role)
}

/// The account that a candidate makes under a digest of its password.
pub open spec fn is_account_of(account: NewAccount, candidate: Candidate) -> bool {
    &&& account.username@ == candidate.username@
    &&& account.email@ == candidate.email@
    &&& account.role == candidate.role
}

/// First step of a registration: the role is checked before anything
/// else. A name that is none of the three roles ends the registration as
/// invalid; no account is looked up or created for it.
pub fn register(request: RegisterRequest) -> (step: RegisterStep)
    ensures
        role_named(request.role@) is None ==> step == RegisterStep::Refused(
            ApiError::ValidationError,
        ),
        role_named(request.role@) is Some ==> (step matches RegisterStep::FindHandle(candidate)
            && is_candidate_of(candidate, request)),
{
    match Role::parse(request.role.as_str()) {
        None => RegisterStep::Refused(ApiError::ValidationError),
        Some(role) => RegisterStep::FindHandle(
            Candidate {
                username: request.username,
                password: request.password,
                email: request.email,
                role,
            },
        ),
    }
}

/// The account for a candidate, given what hashing its password gave. A
/// hashing that failed ends the registration as an internal error.
pub fn account_from(candidate: Candidate, digest: Option<String>) -> (step: RegisterStep)
    ensures
        digest is None ==> step == RegisterStep::Refused(ApiError::Internal),
        digest matches Some(d) ==> (step matches RegisterStep::Insert(account) && is_account_of(
            account,
            candidate,
        ) && account.password_hash@ == d@),
{
    match digest {
        None => RegisterStep::Refused(ApiError::Internal),
        Some(password_hash) => RegisterStep::Insert(
            NewAccount {
                username: candidate.username,
                password_hash,
                email: candidate.email,
                role: candidate.role,
            },
        ),
    }
}

/// What the second step gives for a free handle: the account to store, with
/// a digest that the password verifies against. Only a password of more than
/// 0xFFFFFFFF bytes, which cannot be hashed, ends the registration instead.
pub open spec fn free_handle_step(candidate: Candidate, step: RegisterStep) -> bool {
    if bytes_of(candidate.password@).len() <= 0xFFFF_FFFF {
        step matches RegisterStep::Insert(account) && is_account_of(account, candidate)
            && argon2_accepts(bytes_of(candidate.password@), account.password_hash@)
    } else {
        step == RegisterStep::Refused(ApiError::Internal)
    }
}

/// Second step of a registration, with the store's answer to whether the
/// handle is taken. A taken handle ends the registration as a conflict and
/// a failed lookup as an internal error: in both cases no account is handed
/// out for storing, so nothing that is stored can be overwritten. Otherwise
/// the password is hashed, and the account to store holds a digest that the
/// password verifies against.
pub fn after_lookup(candidate: Candidate, taken: Result<bool, StoreFailure>) -> (step: RegisterStep)
    ensures
        taken is Err ==> step == RegisterStep::Refused(ApiError::Internal),
        taken == Ok::<bool, StoreFailure>(true) ==> step == RegisterStep::Refused(
            ApiError::Conflict,
        ),
        taken == Ok::<bool, StoreFailure>(false) ==> free_handle_step(candidate, step),
{
    match taken {
        Err(_) => RegisterStep::Refused(ApiError::Internal),
        Ok(true) => RegisterStep::Refused(ApiError::Conflict),
        Ok(false) => {
            let digest = hash(candidate.password.as_str());
            account_from(candidate, digest)
        },
    }
}

/// What the store's answer to the insertion means.
pub open spec fn insert_outcome(result: Result<(), StoreFailure>) -> RegisterStep {
    match result {
        Ok(_) => RegisterStep::Created,
        Err(failure) => if occurs_in(duplicate_mark(), bytes_of(failure.message@)) {
            RegisterStep::Refused(ApiError::Conflict)
        } else {
            RegisterStep::Refused(ApiError::Internal)
        },
    }
}

/// Last step of a registration, with the store's answer to the insertion.
/// A failure whose message speaks of a duplicate is a conflict: the handle
/// was taken between lookup and insertion.
pub fn after_insert(result: Result<(), StoreFailure>) -> (step: RegisterStep)
    ensures
        step == insert_outcome(result),
{
    match result {
        Ok(_) => RegisterStep::Created,
        Err(failure) => if contains(failure.message.as_str(), "duplicate") {
            RegisterStep::Refused(ApiError::Conflict)
        } else {
            RegisterStep::Refused(ApiError::Internal)
        },
    }
}

/// The claims that a sign-in earns at the instant `now`, or the error it
/// ends with. An unknown handle and a wrong password are the same
/// rejection. An account without a number or with a role that does not
/// exist, and an expiry instant that cannot be represented, are internal
/// errors.
pub open spec fn login_claims(
    password: Seq<u8>,
    found: Result<Option<User>, StoreFailure>,
    now: int,
) -> Result<ClaimsView, ApiError> {
    match found {
        Err(_) => Err(ApiError::Internal),
        Ok(None) => Err(ApiError::Unauthenticated),
        Ok(Some(user)) => if !verifies(password, user.password_hash@) {
            Err(ApiError::Unauthenticated)
        } else if user.id is None || role_named(user.role@) is None || now + DEFAULT_TTL
            > u64::MAX {
            Err(ApiError::Internal)
        } else {
            Ok(
                ClaimsView {
                    sub: user.id.unwrap() as int,
                    exp: now + DEFAULT_TTL,
                    username: user.username@,
                    role: role_named(user.role@).unwrap(),
                },
            )
        },
    }
}

/// Whether a sign-in's result is the one that these claims, or this error,
/// call for.
pub open spec fn login_result(
    secret: Seq<u8>,
    earned: Result<ClaimsView, ApiError>,
    result: Result<String, ApiError>,
) -> bool {
    match earned {
        Ok(claims) => result matches Ok(token) && carries(secret, token@, claims),
        Err(error) => result == Err::<String, ApiError>(error),
    }
}

/// Signs a caller in at the instant `now`, given what the store found under
/// the request's handle. On success the result is a token for the account,
/// valid for `DEFAULT_TTL` seconds.
pub fn login_at(
    codec: &TokenCodec,
    request: &LoginRequest,
    found: Result<Option<User>, StoreFailure>,
    now: u64,
) -> (result: Result<String, ApiError>)
    ensures
        login_result(
            codec.secret(),
            login_claims(bytes_of(request.password@), found, now as int),
            result,
        ),
{
    let user = match found {
        Err(_) => {
            return Err(ApiError::Internal);
        },
        Ok(None) => {
            return Err(ApiError::Unauthenticated);
        },
        Ok(Some(user)) => user,
    };
    if !verify(request.password.as_str(), user.password_hash.as_str()) {
        return Err(ApiError::Unauthenticated);
    }
    let id = match user.id {
        Some(id) => id,
        None => {
            return Err(ApiError::Internal);
        },
    };
    let role = match Role::parse(user.role.as_str()) {
        Some(role) => role,
        None => {
            return Err(ApiError::Internal);
        },
    };
    match codec.issue_at(id, user.username.as_str(), role, now, DEFAULT_TTL) {
        Some(token) => Ok(token),
        None => Err(ApiError::Internal),
    }
}

/// Signs a caller in against the system clock. The result is the one that
/// `login_at` gives for some instant. Without an account, or with a
/// password that does not verify, it is the rejection whatever the clock
/// says.
pub fn login(
    codec: &TokenCodec,
    request: &LoginRequest,
    found: Result<Option<User>, StoreFailure>,
) -> (result: Result<String, ApiError>)
    ensures
        exists|now: u64| #[trigger]
            login_result(
                codec.secret(),
                login_claims(bytes_of(request.password@), found, now as int),
                result,
            ),
{
    let now = crate::token::system_time();
    let result = login_at(codec, request, found, now);
    assert(login_result(
        codec.secret(),
        login_claims(bytes_of(request.password@), found, now as int),
        result,
    ));
    result
}

/// A registration that names no existing role is refused as invalid, which
/// is status 400; a taken handle is refused as a conflict, which is status
/// 409.
pub proof fn refusals_have_their_status()
    ensures
        crate::error::status_of(ApiError::ValidationError) == 400,
        crate::error::status_of(ApiError::Conflict) == 409,
        crate::error::status_of(ApiError::Unauthenticated) == 401,
{
}

/// A sign-in with a password that the stored digest does not verify never
/// yields a token, whatever the clock says.
pub proof fn wrong_password_earns_nothing(password: Seq<u8>, user: User, now: int)
    requires
        !verifies(password, user.password_hash@),
    ensures
        login_claims(password, Ok(Some(user)), now) == Err::<ClaimsView, ApiError>(
            ApiError::Unauthenticated,
        ),
{
}

/// The account as the store holds it after it stored `account` under the
/// number `id`.
pub open spec fn stored_as(user: User, account: NewAccount, id: i32) -> bool {
    &&& user.id == Some(id)
    &&& user.username@ == account.username@
    &&& user.password_hash@ == account.password_hash@
    &&& user.role@ == role_name(account.role)
}

/// A sign-in with a password that the stored digest verifies earns claims
/// for the account, for one hour, at every instant that leaves room for the
/// hour, if the account has a number and an existing role.
pub proof fn own_password_signs_in(password: Seq<u8>, user: User, now: int)
    requires
        verifies(password, user.password_hash@),
        user.id is Some,
        role_named(user.role@) is Some,
        0 <= now,
        now + DEFAULT_TTL <= u64::MAX,
    ensures
        login_claims(password, Ok(Some(user)), now) == Ok::<ClaimsView, ApiError>(
            ClaimsView {
                sub: user.id.unwrap() as int,
                exp: now + DEFAULT_TTL,
                username: user.username@,
                role: role_named(user.role@).unwrap(),
            },
        ),
{
}

/// Signing up and then signing in with the same password succeeds: the
/// account that `after_lookup` hands out for a candidate, once the store
/// holds it under a number, earns the candidate claims for that number, its
/// handle and its role. This holds of every password that can be hashed, the
/// empty one and text outside ASCII included.
pub proof fn registered_password_signs_in(
    candidate: Candidate,
    step: RegisterStep,
    user: User,
    id: i32,
    now: int,
)
    requires
        bytes_of(candidate.password@).len() <= 0xFFFF_FFFF,
        free_handle_step(candidate, step),
        step matches RegisterStep::Insert(account) ==> stored_as(user, account, id),
        0 <= now,
        now + DEFAULT_TTL <= u64::MAX,
    ensures
        step is Insert,
        login_claims(bytes_of(candidate.password@), Ok(Some(user)), now) == Ok::<
            ClaimsView,
            ApiError,
        >(
            ClaimsView {
                sub: id as int,
                exp: now + DEFAULT_TTL,
                username: candidate.username@,
                role: candidate.role,
            },
        ),
{
    crate::role::role_name_round_trip(candidate.role);
}

/// Two accounts with the same password both sign in with it, each against
/// its own digest, whether or not the two digests differ.
pub proof fn same_password_signs_in_to_each(password: Seq<u8>, one: User, other: User, now: int)
    requires
        verifies(password, one.password_hash@),
        verifies(password, other.password_hash@),
        one.id is Some,
        other.id is Some,
        role_named(one.role@) is Some,
        role_named(other.role@) is Some,
        0 <= now,
        now + DEFAULT_TTL <= u64::MAX,
    ensures
        login_claims(password, Ok(Some(one)), now) is Ok,
        login_claims(password, Ok(Some(other)), now) is Ok,
{
}

} // verus!

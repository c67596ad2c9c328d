//! Signed, time-limited identity tokens.
//!
//! A token is a JSON Web Token signed with HMAC-SHA256 under one secret. Its
//! payload is a JSON object with the members `sub`, `exp`, `username` and
//! `role`. Signing and signature checking are done by `jsonwebtoken`; what
//! the payload holds and when a token has expired is decided here.

use vstd::prelude::*;
use crate::error::AuthError;
use crate::json::{
    new_object, object_integers, object_names, object_texts, only_scalars, put_signed, put_text,
    put_unsigned, signed_at, signed_member, text_at, text_member, unsigned_at, unsigned_member,
};
use crate::role::{role_name, role_named, role_names_differ, Role};

verus! {

/// How long a token lives when the caller does not say: one hour, in seconds.
pub const DEFAULT_TTL: u64 = 3600;

/// What a token asserts: an account's number, handle and role, and the
/// instant, in seconds since the epoch, at which the assertion ends.
#[derive(Clone, Debug, PartialEq, Eq)]
pub struct Claims {
    pub sub: i32,
    pub exp: u64,
    pub username: String,
    pub role: Role,
}

/// The mathematical content of [`Claims`].
pub struct ClaimsView {
    pub sub: int,
    pub exp: int,
    pub username: Seq<char>,
    pub role: Role,
}

impl View for Claims {
    type V = ClaimsView;

    open spec fn view(&self) -> ClaimsView {
        ClaimsView {
            sub: self.sub as int,
            exp: self.exp as int,
            username: self.username@,
            role: self.role,
        }
    }
}

/// The integer and text members of a token's payload.
pub struct Payload {
    pub integers: Map<Seq<char>, int>,
    pub texts: Map<Seq<char>, Seq<char>>,
}

/// Why `jsonwebtoken` did not hand out a payload.
#[derive(Clone, Copy, Debug, PartialEq, Eq, Structural)]
pub enum DecodeFault {
    /// The signature is not the one that the content and the secret give.
    InvalidSignature,
    /// The header names another signing scheme than HMAC-SHA256.
    InvalidAlgorithm,
    /// Anything else: not three parts, not base64, not JSON, not an object.
    Unreadable,
}

/// The payload of a JSON object.
pub open spec fn payload_of(object: serde_json::Map<String, serde_json::Value>) -> Payload {
    Payload { integers: object_integers(object), texts: object_texts(object) }
}

/// What `jsonwebtoken::decode` makes of a token under a secret, with
/// HMAC-SHA256 as the only accepted scheme and no check of the registered
/// claims: the payload's integer and text members, or the fault.
pub uninterp spec fn token_payload(token: Seq<char>, secret: Seq<u8>) -> Result<
    Payload,
    DecodeFault,
>;

/// `jsonwebtoken::encode` with the default header (HMAC-SHA256) and a key
/// made from `secret`. It always yields a token: header, payload and
/// signature, each in base64url, joined by dots. Where the object holds only
/// integers and texts, decoding that token under the same secret gives the
/// object's members back.
#[verifier::external_body]
fn sign_object(object: &serde_json::Map<String, serde_json::Value>, secret: &[u8]) -> (token:
    Option<String>)
    ensures
        token is Some,
        is_three_part(token.unwrap()@),
        only_scalars(*object) ==> token_payload(token.unwrap()@, secret@) == decoded_as(
            payload_of(*object),
        ),
{
    let key = jsonwebtoken::EncodingKey::from_secret(secret);
    jsonwebtoken::encode(&jsonwebtoken::Header::default(), object, &key).ok()
}

/// `jsonwebtoken::decode` into a JSON object, with a key made from `secret`
/// and the default validation rules except that no registered claim is
/// required or checked: the signature is verified first, then the payload is
/// parsed. The result is a function of the token and the secret alone.
#[verifier::external_body]
fn decode_object(token: &str, secret: &[u8]) -> (decoded: Result<
    serde_json::Map<String, serde_json::Value>,
    DecodeFault,
>)
    ensures
        decoded matches Ok(object) ==> token_payload(token@, secret@) == decoded_as(
            payload_of(object),
        ),
        decoded matches Err(fault) ==> token_payload(token@, secret@) == failed_with(fault),
{
    let mut rules = jsonwebtoken::Validation::default();
    rules.validate_exp = false;
    rules.validate_aud = false;
    rules.required_spec_claims.clear();
    let key = jsonwebtoken::DecodingKey::from_secret(secret);
    match jsonwebtoken::decode::<serde_json::Map<String, serde_json::Value>>(token, &key, &rules) {
        Ok(data) => Ok(data.claims),
        Err(error) => Err(match error.kind() {
            jsonwebtoken::errors::ErrorKind::InvalidSignature => DecodeFault::InvalidSignature,
            jsonwebtoken::errors::ErrorKind::InvalidAlgorithm => DecodeFault::InvalidAlgorithm,
            _ => DecodeFault::Unreadable,
        }),
    }
}

/// `jsonwebtoken::get_current_timestamp`: the seconds since the epoch on
/// the system clock. Nothing is known of the value.
#[verifier::external_body]
pub(crate) fn system_time() -> (now: u64) {
    jsonwebtoken::get_current_timestamp()
}

/// A decoding that succeeded with this payload.
pub open spec fn decoded_as(payload: Payload) -> Result<Payload, DecodeFault> {
    Ok(payload)
}

/// A decoding that failed with this fault.
pub open spec fn failed_with(fault: DecodeFault) -> Result<Payload, DecodeFault> {
    Err(fault)
}

/// The text that an optional string holds.
pub open spec fn text_view(text: Option<String>) -> Option<Seq<char>> {
    match text {
        Some(t) => Some(t@),
        None => None,
    }
}

/// The content of optional claims.
pub open spec fn claims_view(claims: Option<Claims>) -> Option<ClaimsView> {
    match claims {
        Some(c) => Some(c@),
        None => None,
    }
}

/// The content of a validation's result.
pub open spec fn outcome_view(outcome: Result<Claims, AuthError>) -> Result<ClaimsView, AuthError> {
    match outcome {
        Ok(c) => Ok(c@),
        Err(e) => Err(e),
    }
}

/// The four members of a payload that claims are made of, each as it was
/// found: absent where the payload has no such member of the right kind.
#[derive(Clone, Debug, PartialEq, Eq)]
pub struct ClaimFields {
    pub sub: Option<i64>,
    pub exp: Option<u64>,
    pub username: Option<String>,
    pub role: Option<String>,
}

/// The mathematical content of [`ClaimFields`].
pub struct FieldsView {
    pub sub: Option<i64>,
    pub exp: Option<u64>,
    pub username: Option<Seq<char>>,
    pub role: Option<Seq<char>>,
}

impl View for ClaimFields {
    type V = FieldsView;

    open spec fn view(&self) -> FieldsView {
        FieldsView {
            sub: self.sub,
            exp: self.exp,
            username: text_view(self.username),
            role: text_view(self.role),
        }
    }
}

/// The content of a decoding's result.
pub open spec fn decoded_view(decoded: Result<ClaimFields, DecodeFault>) -> Result<
    FieldsView,
    DecodeFault,
> {
    match decoded {
        Ok(fields) => Ok(fields@),
        Err(fault) => Err(fault),
    }
}

/// The payload that carries these claims: `sub` and `exp` as integers,
/// `username` and `role` as texts, and nothing else.
pub open spec fn claims_payload(claims: ClaimsView) -> Payload {
    Payload {
        integers: Map::<Seq<char>, int>::empty().insert("sub"@, claims.sub).insert(
            "exp"@,
            claims.exp,
        ),
        texts: Map::<Seq<char>, Seq<char>>::empty().insert("username"@, claims.username).insert(
            "role"@,
            role_name(claims.role),
        ),
    }
}

/// The four members as a payload has them. `sub` must fit an `i64` and
/// `exp` a `u64` to count as found; members other than the four are
/// ignored.
pub open spec fn fields_in(payload: Payload) -> FieldsView {
    FieldsView {
        sub: signed_member(payload.integers, "sub"@),
        exp: unsigned_member(payload.integers, "exp"@),
        username: text_member(payload.texts, "username"@),
        role: text_member(payload.texts, "role"@),
    }
}

/// The claims that four payload members make: all four must be there, the
/// subject must fit an `i32`, and the role must be one of the three names.
pub open spec fn claims_from(fields: FieldsView) -> Option<ClaimsView> {
    if fields.sub is Some && fields.exp is Some && fields.username is Some && fields.role is Some
        && i32::MIN <= fields.sub.unwrap() <= i32::MAX && role_named(fields.role.unwrap())
        is Some {
        Some(
            ClaimsView {
                sub: fields.sub.unwrap() as int,
                exp: fields.exp.unwrap() as int,
                username: fields.username.unwrap(),
                role: role_named(fields.role.unwrap()).unwrap(),
            },
        )
    } else {
        None
    }
}

/// Claims hold while the clock is before their expiry instant.
pub open spec fn live_at(claims: ClaimsView, now: int) -> bool {
    claims.exp > now
}

/// The reason that is recorded for a decoding fault.
pub open spec fn fault_reason(fault: DecodeFault) -> AuthError {
    match fault {
        DecodeFault::InvalidSignature => AuthError::InvalidSignature,
        DecodeFault::InvalidAlgorithm => AuthError::InvalidSignature,
        DecodeFault::Unreadable => AuthError::Malformed,
    }
}

/// What validation makes of a decoded token at an instant. The signature
/// comes first: a fault there is final, and the payload is not looked at.
/// Then the payload is parsed: members that make no claims mean a malformed
/// token. Last the expiry instant is compared with the clock.
pub open spec fn judged(decoded: Result<FieldsView, DecodeFault>, now: int) -> Result<
    ClaimsView,
    AuthError,
> {
    match decoded {
        Err(fault) => Err(fault_reason(fault)),
        Ok(fields) => match claims_from(fields) {
            None => Err(AuthError::Malformed),
            Some(claims) => if live_at(claims, now) {
                Ok(claims)
            } else {
                Err(AuthError::Expired)
            },
        },
    }
}

/// The token decodes, under the secret, to the payload that carries exactly
/// these claims.
pub open spec fn carries(secret: Seq<u8>, token: Seq<char>, claims: ClaimsView) -> bool {
    token_payload(token, secret) == decoded_as(claims_payload(claims))
}

/// The four members that a token decodes to under a secret, or the fault.
pub open spec fn token_fields(secret: Seq<u8>, token: Seq<char>) -> Result<
    FieldsView,
    DecodeFault,
> {
    match token_payload(token, secret) {
        Ok(payload) => Ok(fields_in(payload)),
        Err(fault) => Err(fault),
    }
}

/// What validating a token under a secret gives at an instant.
pub open spec fn validation(secret: Seq<u8>, token: Seq<char>, now: int) -> Result<
    ClaimsView,
    AuthError,
> {
    judged(token_fields(secret, token), now)
}

impl DecodeFault {
    /// The reason that is recorded for this fault.
    pub fn reason(&self) -> (reason: AuthError)
        ensures
            reason == fault_reason(*self),
    {
        match self {
            DecodeFault::InvalidSignature => AuthError::InvalidSignature,
            DecodeFault::InvalidAlgorithm => AuthError::InvalidSignature,
            DecodeFault::Unreadable => AuthError::Malformed,
        }
    }
}

impl Claims {
    /// Parses claims from the four payload members as they were found.
    pub fn from_fields(fields: ClaimFields) -> (claims: Option<Claims>)
        ensures
            claims_view(claims) == claims_from(fields@),
    {
        match (fields.sub, fields.exp, fields.username, fields.role) {
            (Some(sub), Some(exp), Some(username), Some(role)) => {
                if sub < -2147483648 || sub > 2147483647 {
                    return None;
                }
                match Role::parse(role.as_str()) {
                    Some(role) => Some(Claims { sub: sub as i32, exp, username, role }),
                    None => None,
                }
            },
            _ => None,
        }
    }

    /// Whether the claims still hold at `now`: only before the expiry instant.
    pub fn is_live_at(&self, now: u64) -> (live: bool)
        ensures
            live == live_at(self@, now as int),
    {
        self.exp > now
    }
}

/// Concludes a validation at the instant `now` from what decoding the token
/// gave: the fault's reason, or the claims if the members make claims that
/// are still live.
pub fn judge(decoded: Result<ClaimFields, DecodeFault>, now: u64) -> (outcome: Result<
    Claims,
    AuthError,
>)
    ensures
        outcome_view(outcome) == judged(decoded_view(decoded), now as int),
{
    match decoded {
        Err(fault) => Err(fault.reason()),
        Ok(fields) => match Claims::from_fields(fields) {
            None => Err(AuthError::Malformed),
            Some(claims) => if claims.is_live_at(now) {
                Ok(claims)
            } else {
                Err(AuthError::Expired)
            },
        },
    }
}

/// Reads the four members from a decoded payload.
fn read_fields(object: &serde_json::Map<String, serde_json::Value>) -> (fields: ClaimFields)
    ensures
        fields@ == fields_in(payload_of(*object)),
{
    ClaimFields {
        sub: signed_at(object, "sub"),
        exp: unsigned_at(object, "exp"),
        username: text_at(object, "username"),
        role: text_at(object, "role"),
    }
}

/// The names of the four payload members are pairwise different.
pub proof fn member_names_differ()
    ensures
        "sub"@ != "exp"@,
        "username"@ != "role"@,
        "sub"@ != "username"@,
        "sub"@ != "role"@,
        "exp"@ != "username"@,
        "exp"@ != "role"@,
{
    reveal_strlit("sub");
    reveal_strlit("exp");
    reveal_strlit("username");
    reveal_strlit("role");
    assert("sub"@[0] == 's');
    assert("exp"@[0] == 'e');
    assert("username"@.len() == 8);
    assert("role"@.len() == 4);
    assert("sub"@.len() == 3);
    assert("exp"@.len() == 3);
}

/// Claims that were written into a payload are read back from it unchanged.
pub proof fn payload_round_trip(claims: ClaimsView)
    requires
        i32::MIN <= claims.sub <= i32::MAX,
        0 <= claims.exp <= u64::MAX,
    ensures
        claims_from(fields_in(claims_payload(claims))) == Some(claims),
{
    member_names_differ();
    role_names_differ();
    let payload = claims_payload(claims);
    assert(payload.integers.contains_key("sub"@));
    assert(payload.integers.contains_key("exp"@));
    assert(payload.integers["sub"@] == claims.sub);
    assert(payload.integers["exp"@] == claims.exp);
    assert(payload.texts.contains_key("username"@));
    assert(payload.texts.contains_key("role"@));
    assert(payload.texts["username"@] == claims.username);
    assert(payload.texts["role"@] == role_name(claims.role));
    assert(role_named(role_name(claims.role)) == Some(claims.role));
}

/// A token that carries some claims validates to exactly those claims at
/// every instant before their expiry. With what `issue_at` promises, this
/// says that a token issued at `now` for `ttl` seconds is accepted, with
/// the claims it was issued for, at any time before `now + ttl`.
pub proof fn issued_token_validates(
    secret: Seq<u8>,
    token: Seq<char>,
    claims: ClaimsView,
    now: int,
)
    requires
        i32::MIN <= claims.sub <= i32::MAX,
        0 <= claims.exp <= u64::MAX,
        carries(secret, token, claims),
        now < claims.exp,
    ensures
        validation(secret, token, now) == Ok::<ClaimsView, AuthError>(claims),
{
    payload_round_trip(claims);
}

/// A token that carries some claims is refused as expired at their expiry
/// instant and at every instant after it.
pub proof fn issued_token_expires(secret: Seq<u8>, token: Seq<char>, claims: ClaimsView, now: int)
    requires
        i32::MIN <= claims.sub <= i32::MAX,
        0 <= claims.exp <= u64::MAX,
        carries(secret, token, claims),
        now >= claims.exp,
    ensures
        validation(secret, token, now) == Err::<ClaimsView, AuthError>(AuthError::Expired),
{
    payload_round_trip(claims);
}

/// Validation never accepts claims at or after their expiry instant,
/// whatever the token and the secret.
pub proof fn expired_token_is_refused(secret: Seq<u8>, token: Seq<char>, now: int)
    ensures
        validation(secret, token, now) matches Ok(claims) ==> claims.exp > now,
        token_fields(secret, token) matches Ok(fields) && claims_from(fields) matches Some(claims)
            && claims.exp <= now ==> validation(secret, token, now) == Err::<
            ClaimsView,
            AuthError,
        >(AuthError::Expired),
{
}

/// A fault in the signature is final: whatever the payload holds, and
/// whatever the clock says, the token is refused for its signature.
pub proof fn bad_signature_is_refused(secret: Seq<u8>, token: Seq<char>, now: int)
    requires
        token_payload(token, secret) == failed_with(DecodeFault::InvalidSignature),
    ensures
        validation(secret, token, now) == Err::<ClaimsView, AuthError>(
            AuthError::InvalidSignature,
        ),
{
}

/// What is accepted at one instant is accepted, with the same claims, at
/// every earlier instant.
pub proof fn acceptance_is_monotone(secret: Seq<u8>, token: Seq<char>, earlier: int, later: int)
    requires
        earlier <= later,
        validation(secret, token, later) is Ok,
    ensures
        validation(secret, token, earlier) == validation(secret, token, later),
{
}

/// Issues and validates tokens under one secret.
pub struct TokenCodec {
    secret: Vec<u8>,
}

impl TokenCodec {
    /// The signing secret.
    pub closed spec fn secret(&self) -> Seq<u8> {
        self.secret@
    }

    /// A codec for the given secret.
    pub fn new(secret: Vec<u8>) -> (codec: TokenCodec)
        ensures
            codec.secret() == secret@,
    {
        TokenCodec { secret }
    }

    /// Issues a token for an account at the instant `now`, to expire `ttl`
    /// seconds later, in the three-part dotted form. No token is issued
    /// where that instant cannot be represented.
    pub fn issue_at(&self, account_id: i32, handle: &str, role: Role, now: u64, ttl: u64) -> (token:
        Option<String>)
        ensures
            token is Some <==> now + ttl <= u64::MAX,
            token matches Some(t) ==> carries(
                self.secret(),
                t@,
                ClaimsView { sub: account_id as int, exp: now + ttl, username: handle@, role },
            ),
            token matches Some(t) ==> is_three_part(t@),
    {
        let exp = match now.checked_add(ttl) {
            Some(exp) => exp,
            None => {
                return None;
            },
        };
        let mut object = new_object();
        put_signed(&mut object, "sub", account_id as i64);
        put_unsigned(&mut object, "exp", exp);
        put_text(&mut object, "username", handle);
        put_text(&mut object, "role", role.as_str());
        proof {
            member_names_differ();
            let claims = ClaimsView {
                sub: account_id as int,
                exp: now + ttl,
                username: handle@,
                role,
            };
            assert(object_integers(object) =~= claims_payload(claims).integers);
            assert(object_texts(object) =~= claims_payload(claims).texts);
            assert(object_names(object) =~= object_integers(object).dom().union(
                object_texts(object).dom(),
            ));
        }
        sign_object(&object, self.secret.as_slice())
    }

    /// Issues a token for an account now, to expire `ttl` seconds from now.
    /// The result is the one that `issue_at` gives for the clock's instant.
    pub fn issue(&self, account_id: i32, handle: &str, role: Role, ttl: u64) -> (token: Option<
        String,
    >)
        ensures
            exists|now: u64| #[trigger]
                issued(
                    self.secret(),
                    account_id as int,
                    handle@,
                    role,
                    now as int,
                    ttl as int,
                    text_view(token),
                ),
            ttl == 0 ==> token is Some,
    {
        let now = system_time();
        let token = self.issue_at(account_id, handle, role, now, ttl);
        assert(issued(
            self.secret(),
            account_id as int,
            handle@,
            role,
            now as int,
            ttl as int,
            text_view(token),
        ));
        token
    }

    /// Validates a token at the instant `now`: the signature first, then
    /// the payload, then the expiry instant.
    pub fn validate_at(&self, token: &str, now: u64) -> (outcome: Result<Claims, AuthError>)
        ensures
            outcome_view(outcome) == validation(self.secret(), token@, now as int),
    {
        let decoded = match decode_object(token, self.secret.as_slice()) {
            Err(fault) => Err(fault),
            Ok(object) => Ok(read_fields(&object)),
        };
        judge(decoded, now)
    }

    /// Validates a token against the system clock. The outcome is the one
    /// that `validate_at` gives for some instant.
    pub fn validate(&self, token: &str) -> (outcome: Result<Claims, AuthError>)
        ensures
            exists|now: u64| #[trigger]
                validation(self.secret(), token@, now as int) == outcome_view(outcome),
    {
        let now = system_time();
        let outcome = self.validate_at(token, now);
        assert(validation(self.secret(), token@, now as int) == outcome_view(outcome));
        outcome
    }
}

/// What issuing at the instant `now` for `ttl` seconds gives: a token
/// exactly where the expiry instant `now + ttl` can be represented, and
/// then one that carries the claims with that expiry.
pub open spec fn issued(
    secret: Seq<u8>,
    sub: int,
    username: Seq<char>,
    role: Role,
    now: int,
    ttl: int,
    token: Option<Seq<char>>,
) -> bool {
    &&& token is Some <==> now + ttl <= u64::MAX
    &&& token matches Some(t) ==> carries(
        secret,
        t,
        ClaimsView { sub, exp: now + ttl, username, role },
    )
    &&& token matches Some(t) ==> is_three_part(t)
}

/// The wire form of a token: three parts, none of them empty, with one dot
/// between each two and no dot inside a part.
pub open spec fn is_three_part(token: Seq<char>) -> bool {
    exists|first: int, second: int|
        #![trigger token[first], token[second]]
        {
            &&& 0 < first
            &&& first + 1 < second
            &&& second + 1 < token.len()
            &&& token[first] == '.'
            &&& token[second] == '.'
            &&& forall|i: int|
                0 <= i < token.len() && #[trigger] token[i] == '.' ==> i == first || i == second
        }
}

} // verus!

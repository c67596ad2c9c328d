//! Salted password digests.
//!
//! Digests are made and checked by Argon2 with its default parameters. A
//! digest is a string in the PHC format that names the algorithm, its
//! parameters, the salt and the derived key, so that checking a password
//! needs nothing but the digest.

use vstd::prelude::*;
use crate::text::bytes_of;

verus! {

/// Whether Argon2 with its default configuration verifies the password
/// against the digest: the digest parses as a PHC string, and hashing the
/// password with the parameters and salt it names gives the key it holds.
pub uninterp spec fn argon2_accepts(password: Seq<u8>, digest: Seq<char>) -> bool;

/// `Salt::from_b64` on the salt text, then `Argon2::default().hash_password`
/// with that salt, written out as a PHC string. The result is a function of
/// the password and the salt alone, and a digest that comes back is one that
/// Argon2 verifies the same password against.
#[verifier::external_body]
fn argon2_hash(password: &[u8], salt: &str) -> (digest: Option<String>)
    ensures
        digest_view(digest) == argon2_digest(password@, salt@),
        digest matches Some(d) ==> argon2_accepts(password@, d@),
{
    let salt = argon2::password_hash::Salt::from_b64(salt).ok()?;
    let hasher = argon2::Argon2::default();
    argon2::PasswordHasher::hash_password(&hasher, password, salt).ok().map(
        |hash| hash.to_string(),
    )
}

/// `PasswordHash::new` on the digest, then
/// `Argon2::default().verify_password`. A digest that does not parse, that
/// names parameters Argon2 refuses, or that does not match counts as not
/// verified.
#[verifier::external_body]
fn argon2_verify(password: &[u8], digest: &str) -> (accepted: bool)
    ensures
        accepted == argon2_accepts(password@, digest@),
{
    match argon2::PasswordHash::new(digest) {
        Ok(parsed) => argon2::PasswordVerifier::verify_password(
            &argon2::Argon2::default(),
            password,
            &parsed,
        ).is_ok(),
        Err(_) => false,
    }
}

/// What `hash` gives for a password: what Argon2 derives from it under some
/// salt. That is a digest exactly for a password of at most 0xFFFFFFFF
/// bytes, and the digest is one that the password verifies against.
pub open spec fn hash_yields(password: Seq<u8>, digest: Option<Seq<char>>) -> bool {
    &&& exists|salt: Seq<char>| #[trigger] argon2_digest(password, salt) == digest
    &&& digest is Some <==> password.len() <= 0xFFFF_FFFF
    &&& digest matches Some(d) ==> argon2_accepts(password, d)
}

/// What `verify` gives for a password and a digest.
pub open spec fn verifies(password: Seq<u8>, digest: Seq<char>) -> bool {
    argon2_accepts(password, digest)
}

/// The text of an optional digest.
pub open spec fn digest_view(digest: Option<String>) -> Option<Seq<char>> {
    match digest {
        Some(d) => Some(d@),
        None => None,
    }
}

/// Derives a digest of the password under a fresh random salt: what Argon2
/// derives from it under the salt drawn. There is a digest exactly for a
/// password of at most 0xFFFFFFFF bytes.
pub fn hash(password: &str) -> (digest: Option<String>)
    ensures
        hash_yields(bytes_of(password@), digest_view(digest)),
{
    let salt = fresh_salt();
    let digest = argon2_hash(password.as_bytes(), salt.as_str());
    assert(argon2_digest(bytes_of(password@), salt@) == digest_view(digest));
    digest
}

/// What Argon2 with its default configuration derives from a password under
/// a salt that is given in its B64 text form, written out as a PHC string;
/// nothing where the text is no salt or Argon2 refuses the input.
pub uninterp spec fn argon2_digest(password: Seq<u8>, salt: Seq<char>) -> Option<Seq<char>>;

/// `SaltString::generate` on the operating system's random source, in its
/// B64 text form. Every call draws anew, so nothing is known of the text but
/// what holds of every salt drawn: it encodes sixteen bytes, which Argon2
/// takes as a salt, and Argon2 with its default configuration then derives
/// a digest from every password but one of more than 0xFFFFFFFF bytes,
/// which it refuses.
#[verifier::external_body]
fn fresh_salt() -> (salt: String)
    ensures
        forall|password: Seq<u8>|
            (#[trigger] argon2_digest(password, salt@)) is Some <==> password.len() <= 0xFFFF_FFFF,
{
    argon2::password_hash::SaltString::generate(&mut argon2::password_hash::rand_core::OsRng)
        .as_str()
        .to_string()
}

/// Checks a password against a digest. A wrong password, a malformed digest
/// and an unsupported parameter set all give `false`, with nothing to tell
/// them apart.
pub fn verify(password: &str, digest: &str) -> (accepted: bool)
    ensures
        accepted == verifies(bytes_of(password@), digest@),
{
    argon2_verify(password.as_bytes(), digest)
}

/// Every password of at most 0xFFFFFFFF bytes, the empty one included, gets
/// a digest from `hash`, and verifies against the digest it gets.
pub proof fn own_digest_verifies(password: Seq<u8>, digest: Option<Seq<char>>)
    requires
        password.len() <= 0xFFFF_FFFF,
        hash_yields(password, digest),
    ensures
        digest matches Some(d) && verifies(password, d),
{
}

} // verus!

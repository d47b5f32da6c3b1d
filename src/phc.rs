//! Reading stored password hashes in the PHC string format.
//!
//! The parsing and the password check themselves are done by the `password-hash` and
//! `password-auth` crates; this module names their results and derives the
//! session-binding secret from the digest.
use vstd::prelude::*;

verus! {

/// What `password_hash::PasswordHash::new` makes of an encoded hash: `None` when the
/// string does not parse, `Some(None)` when it parses without a digest, and
/// `Some(Some(d))` when it holds the digest bytes `d`.
pub uninterp spec fn phc_digest(encoded: Seq<char>) -> Option<Option<Seq<u8>>>;

/// Whether `password_auth::verify_password` accepts `password` against `encoded`.
pub uninterp spec fn password_matches(password: Seq<char>, encoded: Seq<char>) -> bool;

/// The session-binding secret of an encoded hash: its digest bytes, when it has one.
pub open spec fn session_secret_of(encoded: Seq<char>) -> Option<Seq<u8>> {
    match phc_digest(encoded) {
        Some(Some(d)) => Some(d),
        _ => None,
    }
}

/// An encoded hash that parses and holds a digest.
pub open spec fn is_sound_hash(encoded: Seq<char>) -> bool {
    session_secret_of(encoded) is Some
}

/// Declares `password_hash::Error`, the parser's error, carried through opaque.
#[verifier::external_type_specification]
#[verifier::external_body]
pub struct ExPhcError(password_hash::Error);

/// Why a stored hash yields no session-binding secret.
#[derive(Clone, Copy, Debug, PartialEq, Eq)]
pub enum HashDefect {
    /// The string is not a PHC string; the parser's own error is kept.
    Unparsable(password_hash::Error),
    /// The string parses but holds no digest.
    MissingDigest,
}

/// The parse result of `parse_phc_digest` in the shape of `phc_digest`.
pub open spec fn parsed_view(r: Result<Option<Vec<u8>>, password_hash::Error>) -> Option<
    Option<Seq<u8>>,
> {
    match r {
        Ok(Some(d)) => Some(Some(d@)),
        Ok(None) => Some(None),
        Err(_) => None,
    }
}

/// Relies on `password_hash::PasswordHash::new` (parses a PHC string; an empty string
/// is an error), its public `hash` field and `Output::as_bytes` (the digest bytes).
#[verifier::external_body]
fn parse_phc_digest(encoded: &str) -> (r: Result<Option<Vec<u8>>, password_hash::Error>)
    ensures
        phc_digest(encoded@) == parsed_view(r),
        encoded@.len() == 0 ==> r is Err,
{
    password_hash::PasswordHash::new(encoded).map(|h| h.hash.map(|o| o.as_bytes().to_vec()))
}

/// Relies on `password_auth::verify_password`: it parses `encoded` with
/// `PasswordHash::new` and succeeds only when a verifier recomputes the stored digest
/// from the stored salt, which needs both to be present.
#[verifier::external_body]
fn password_verifies(password: &str, encoded: &str) -> (r: bool)
    ensures
        r == password_matches(password@, encoded@),
        r ==> is_sound_hash(encoded@),
{
    password_auth::verify_password(password, encoded).is_ok()
}

/// Derives the session-binding secret from an encoded hash: the raw digest bytes, without
/// the algorithm, its parameters or the salt.
pub fn derive_session_secret(encoded: &str) -> (r: Result<Vec<u8>, HashDefect>)
    ensures
        match r {
            Ok(d) => session_secret_of(encoded@) == Some(d@),
            Err(HashDefect::Unparsable(_)) => phc_digest(encoded@) is None,
            Err(HashDefect::MissingDigest) => phc_digest(encoded@) == Some(None::<Seq<u8>>),
        },
{
    match parse_phc_digest(encoded) {
        Ok(Some(d)) => Ok(d),
        Ok(None) => Err(HashDefect::MissingDigest),
        Err(e) => Err(HashDefect::Unparsable(e)),
    }
}

/// Checks a candidate password against an encoded hash with the hash algorithm's own
/// verification routine.
pub fn verify(candidate: &str, encoded: &str) -> (r: bool)
    ensures
        r == password_matches(candidate@, encoded@),
        r ==> is_sound_hash(encoded@),
{
    password_verifies(candidate, encoded)
}

} // verus!

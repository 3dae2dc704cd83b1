//! Password hashing: a salted, memory-hard one-way hash kept as PHC text,
//! and its verification.
//!
//! The hash itself is Argon2's work. What this module owns is the record
//! that carries the text, the guarantee that a record always holds text
//! that parses, and the mapping from what Argon2 answers to the errors
//! callers see.

use argon2::Argon2;
use password_hash::{PasswordHash, PasswordHashString, PasswordHasher, PasswordVerifier, SaltString};
use rand::rngs::OsRng;
use vstd::prelude::*;

use crate::error::CryptoError;

verus! {

/// What Argon2 answers when asked whether a password belongs to a hash.
#[derive(Debug, Clone, Copy, PartialEq, Eq, Structural)]
pub enum PasswordVerdict {
    /// The recomputed hash equals the stored one.
    Match,
    /// The recomputed hash differs from the stored one.
    Mismatch,
    /// The hash could not be recomputed (unknown algorithm or parameters).
    Unusable,
}

/// Whether `text` parses as a PHC password-hash string: whether
/// `PasswordHashString::new` accepts it.
pub uninterp spec fn phc_parses(text: Seq<char>) -> bool;

/// Argon2's answer for `password` against the PHC string `phc`: what
/// `PasswordVerifier::verify_password` returns for them.
pub uninterp spec fn argon2_verdict(password: Seq<char>, phc: Seq<char>) -> PasswordVerdict;

/// `PasswordHasher::hash_password` of `Argon2::default()`, with a salt drawn
/// from the operating system by `SaltString::generate`.
///
/// The salt is random, so the text differs from call to call. Whatever it
/// is, it is the serialized form of a `PasswordHash`, which parses, and the
/// crate documents that verifying the hashed password against it succeeds.
#[verifier::external_body]
fn argon2_hash(password: &str) -> (res: Option<String>)
    ensures
        res matches Some(phc) ==> phc_parses(phc@) && argon2_verdict(password@, phc@)
            == PasswordVerdict::Match,
{
    let salt = SaltString::generate(&mut OsRng);
    match Argon2::default().hash_password(password.as_bytes(), &salt) {
        Ok(hash) => Some(hash.serialize().as_str().to_string()),
        Err(_) => None,
    }
}

/// `PasswordHashString::new`: whether `text` is a PHC string.
#[verifier::external_body]
fn phc_parse(text: &str) -> (res: bool)
    ensures
        res == phc_parses(text@),
{
    PasswordHashString::new(text).is_ok()
}

/// `PasswordVerifier::verify_password` of `Argon2::default()` on the hash
/// that `phc` parses to. `Error::Password` is the mismatch; every other
/// error means that the hash could not be recomputed.
#[verifier::external_body]
fn argon2_verify(password: &str, phc: &str) -> (res: PasswordVerdict)
    requires
        phc_parses(phc@),
    ensures
        res == argon2_verdict(password@, phc@),
{
    let Ok(parsed) = PasswordHash::new(phc) else {
        return PasswordVerdict::Unusable;
    };
    match Argon2::default().verify_password(password.as_bytes(), &parsed) {
        Ok(()) => PasswordVerdict::Match,
        Err(password_hash::Error::Password) => PasswordVerdict::Mismatch,
        Err(_) => PasswordVerdict::Unusable,
    }
}

/// A password hash with its salt and parameters, as PHC text.
///
/// The text always parses. Records are compared with passwords through
/// [`verify_password`] only: the type has no equality.
pub struct PasswordHashRecord {
    phc: String,
}

impl View for PasswordHashRecord {
    type V = Seq<char>;

    closed spec fn view(&self) -> Seq<char> {
        self.phc@
    }
}

impl PasswordHashRecord {
    #[verifier::type_invariant]
    spec fn well_formed(self) -> bool {
        phc_parses(self.phc@)
    }

    /// The PHC text, as it is persisted.
    pub fn as_str(&self) -> (res: &str)
        ensures
            res@ == self@,
            phc_parses(res@),
    {
        proof {
            use_type_invariant(self);
        }
        self.phc.as_str()
    }

    /// The PHC text, by value.
    pub fn into_string(self) -> (res: String)
        ensures
            res@ == self@,
            phc_parses(res@),
    {
        proof {
            use_type_invariant(&self);
        }
        self.phc
    }
}

/// The error that a verdict stands for, if any.
pub open spec fn verdict_outcome(verdict: PasswordVerdict) -> Result<(), CryptoError> {
    match verdict {
        PasswordVerdict::Match => Ok(()),
        PasswordVerdict::Mismatch => Err(CryptoError::InvalidCredentials),
        PasswordVerdict::Unusable => Err(CryptoError::HashingFailed),
    }
}

/// What [`deserialize_hash`] makes of `stored`.
pub open spec fn deserialized(stored: Seq<char>) -> Result<Seq<char>, CryptoError> {
    if phc_parses(stored) {
        Ok(stored)
    } else {
        Err(CryptoError::CorruptHash)
    }
}

/// What [`verify_password`] answers for `password` against the hash `phc`.
pub open spec fn verification(password: Seq<char>, phc: Seq<char>) -> Result<(), CryptoError> {
    verdict_outcome(argon2_verdict(password, phc))
}

/// What [`hash_password`] makes of what Argon2 handed back.
pub open spec fn hashed(outcome: Option<String>) -> Result<Seq<char>, CryptoError> {
    match outcome {
        Some(phc) => Ok(phc@),
        None => Err(CryptoError::HashingFailed),
    }
}

/// Turns what Argon2 handed back into the caller's result: a record of
/// the text where there is one, `HashingFailed` where there is none.
pub fn hash_result(outcome: Option<String>) -> (res: Result<PasswordHashRecord, CryptoError>)
    requires
        outcome matches Some(phc) ==> phc_parses(phc@),
    ensures
        res is Ok <==> outcome is Some,
        res matches Ok(record) ==> hashed(outcome) == Ok::<Seq<char>, CryptoError>(record@),
        res matches Err(e) ==> hashed(outcome) == Err::<Seq<char>, CryptoError>(e),
{
    match outcome {
        Some(phc) => Ok(PasswordHashRecord { phc }),
        None => Err(CryptoError::HashingFailed),
    }
}

/// Hashes `password` with a fresh random salt.
///
/// Fails only when the primitive fails, with `HashingFailed`: nothing
/// about the password itself is refused. A record that comes back
/// verifies against the password it was made from.
pub fn hash_password(password: &str) -> (res: Result<PasswordHashRecord, CryptoError>)
    ensures
        res matches Ok(record) ==> verification(password@, record@) == Ok::<(), CryptoError>(()),
        res matches Err(e) ==> e == CryptoError::HashingFailed,
{
    let outcome = argon2_hash(password);
    hash_result(outcome)
}

/// Rebuilds a record from its persisted text: the same text when it is a
/// PHC string, `CorruptHash` when it is not.
pub fn deserialize_hash(stored: &str) -> (res: Result<PasswordHashRecord, CryptoError>)
    ensures
        res is Ok <==> phc_parses(stored@),
        res matches Ok(record) ==> record@ == stored@,
        res matches Err(e) ==> e == CryptoError::CorruptHash,
{
    if phc_parse(stored) {
        Ok(PasswordHashRecord { phc: stored.to_owned() })
    } else {
        Err(CryptoError::CorruptHash)
    }
}

/// Turns Argon2's verdict into the caller's result: success on a match,
/// `InvalidCredentials` on a mismatch, `HashingFailed` when the hash could
/// not be recomputed.
pub fn verdict_result(verdict: PasswordVerdict) -> (res: Result<(), CryptoError>)
    ensures
        res == verdict_outcome(verdict),
{
    match verdict {
        PasswordVerdict::Match => Ok(()),
        PasswordVerdict::Mismatch => Err(CryptoError::InvalidCredentials),
        PasswordVerdict::Unusable => Err(CryptoError::HashingFailed),
    }
}

/// Recomputes the hash of `password` with the salt and parameters of
/// `hash` and compares.
pub fn verify_password(password: &str, hash: &PasswordHashRecord) -> (res: Result<(), CryptoError>)
    ensures
        res == verification(password@, hash@),
{
    let verdict = argon2_verify(password, hash.as_str());
    verdict_result(verdict)
}

/// A record survives being persisted and read back: its text deserializes
/// to the same text, so every password is judged against the restored
/// record as it is against the one that was persisted.
pub proof fn lemma_record_round_trip(record: PasswordHashRecord, password: Seq<char>)
    requires
        phc_parses(record@),
    ensures
        deserialized(record@) == Ok::<Seq<char>, CryptoError>(record@),
        verification(password, deserialized(record@)->Ok_0) == verification(password, record@),
{
}

} // verus!

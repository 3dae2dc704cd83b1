//! Session signing: ECDSA over P-256 with a process-wide key pair, and the
//! base64 text that carries a signature.
//!
//! The key pair is held as plain bytes, so that contracts can speak of it:
//! the secret scalar and the SEC1 encoding of the public point that belongs
//! to it. The curve arithmetic is the `p256` crate's work.

use base64::engine::general_purpose::STANDARD;
use base64::Engine;
use p256::ecdsa::signature::{RandomizedSigner, Verifier};
use p256::ecdsa::{SigningKey, VerifyingKey};
use rand::rngs::StdRng;
use vstd::prelude::*;

use crate::error::CryptoError;

verus! {

/// The random source that signing draws from.
#[verifier::external_type_specification]
#[verifier::external_body]
pub struct ExStdRng(StdRng);

/// The SEC1 encoding of the public key that belongs to the secret scalar
/// `secret`: what `SigningKey::from_slice` followed by
/// `VerifyingKey::to_sec1_bytes` gives, or `None` where `from_slice` refuses
/// the bytes.
pub uninterp spec fn p256_public_key(secret: Seq<u8>) -> Option<Seq<u8>>;

/// Whether `signature`, 64 bytes of `r` and `s`, is a valid ECDSA/P-256
/// signature of `message` under the SEC1-encoded key `public`: whether
/// `Verifier::verify` accepts it. False where the key or the signature does
/// not decode.
pub uninterp spec fn p256_verifies(public: Seq<u8>, message: Seq<u8>, signature: Seq<u8>) -> bool;

/// The standard base64 text, padded, of `bytes`: what `STANDARD.encode`
/// returns.
pub uninterp spec fn base64_text(bytes: Seq<u8>) -> Seq<char>;

/// The bytes that base64 `text` stands for, or `None` where
/// `STANDARD.decode` refuses it.
pub uninterp spec fn base64_bytes(text: Seq<char>) -> Option<Seq<u8>>;

/// The length of the padded base64 text of `len` bytes.
pub open spec fn base64_len(len: nat) -> nat {
    4 * ((len + 2) / 3)
}

/// `SigningKey::random`, serialized with `to_bytes`: a fresh secret scalar.
/// Which one is left to the random source; every one of them is a scalar
/// that `from_slice` takes back.
#[verifier::external_body]
fn p256_random_secret(rng: &mut StdRng) -> (res: Vec<u8>)
    ensures
        p256_public_key(res@) is Some,
{
    SigningKey::random(rng).to_bytes().to_vec()
}

/// `SigningKey::from_slice`, then `verifying_key().to_sec1_bytes()`.
#[verifier::external_body]
fn p256_derive_public(secret: &[u8]) -> (res: Option<Vec<u8>>)
    ensures
        res is Some <==> p256_public_key(secret@) is Some,
        res matches Some(public) ==> p256_public_key(secret@) == Some(public@),
{
    match SigningKey::from_slice(secret) {
        Ok(key) => Some(key.verifying_key().to_sec1_bytes().to_vec()),
        Err(_) => None,
    }
}

/// `RandomizedSigner::try_sign_with_rng` of the key that `secret` decodes
/// to, serialized with `Signature::to_bytes`.
///
/// The signature depends on what the random source yields. Whatever it
/// yields, the result is 64 bytes, and it is a signature in the sense the
/// crate documents: the matching verifying key accepts it for `message`.
#[verifier::external_body]
fn p256_sign(secret: &[u8], rng: &mut StdRng, message: &[u8]) -> (res: Option<Vec<u8>>)
    requires
        p256_public_key(secret@) is Some,
    ensures
        res matches Some(signature) ==> signature@.len() == 64 && p256_verifies(
            p256_public_key(secret@)->0,
            message@,
            signature@,
        ),
{
    let key = SigningKey::from_slice(secret).ok()?;
    let signature: p256::ecdsa::Signature = key.try_sign_with_rng(rng, message).ok()?;
    Some(signature.to_bytes().to_vec())
}

/// `VerifyingKey::from_sec1_bytes`, `Signature::from_slice` and
/// `Verifier::verify`: true when all three accept.
#[verifier::external_body]
fn p256_verify(public: &[u8], message: &[u8], signature: &[u8]) -> (res: bool)
    ensures
        res == p256_verifies(public@, message@, signature@),
{
    let Ok(key) = VerifyingKey::from_sec1_bytes(public) else {
        return false;
    };
    let Ok(parsed) = p256::ecdsa::Signature::from_slice(signature) else {
        return false;
    };
    key.verify(message, &parsed).is_ok()
}

/// `Clone::clone` of the random source.
#[verifier::external_body]
pub(crate) fn rng_clone(rng: &StdRng) -> (res: StdRng) {
    rng.clone()
}

/// `Engine::encode` of `STANDARD`. The text has four characters for every
/// three bytes begun.
#[verifier::external_body]
fn base64_encode(bytes: &[u8]) -> (res: String)
    requires
        base64_len(bytes@.len()) <= usize::MAX,
    ensures
        res@ == base64_text(bytes@),
        res@.len() == base64_len(bytes@.len()),
{
    STANDARD.encode(bytes)
}

/// `Engine::decode` of `STANDARD`.
#[verifier::external_body]
fn base64_decode(text: &str) -> (res: Option<Vec<u8>>)
    ensures
        res is Some <==> base64_bytes(text@) is Some,
        res matches Some(bytes) ==> base64_bytes(text@) == Some(bytes@),
{
    STANDARD.decode(text).ok()
}

/// A raw signature: for one made here, 64 bytes of `r` and `s`.
#[derive(Debug)]
pub struct Signature(pub Vec<u8>);

impl View for Signature {
    type V = Seq<u8>;

    open spec fn view(&self) -> Seq<u8> {
        self.0@
    }
}

/// A signature as text: the base64 encoding of the raw bytes.
#[derive(Debug)]
pub struct SessionSignature(pub String);

impl View for SessionSignature {
    type V = Seq<char>;

    open spec fn view(&self) -> Seq<char> {
        self.0@
    }
}

impl Clone for SessionSignature {
    fn clone(&self) -> (res: Self)
        ensures
            res@ == self@,
    {
        SessionSignature(self.0.clone())
    }
}

/// Whether `encoded` is the base64 text of a signature of `message` that
/// the key `public` accepts.
pub open spec fn is_signature_text(encoded: Seq<char>, public: Seq<u8>, message: Seq<u8>) -> bool {
    exists|raw: Seq<u8>| #[trigger]
        base64_text(raw) == encoded && raw.len() == 64 && p256_verifies(public, message, raw)
}

/// The process-wide signing key pair.
///
/// The public key always belongs to the secret. The type has no `Debug`:
/// the secret is never printed.
pub struct Keys {
    secret: Vec<u8>,
    public: Vec<u8>,
}

impl Keys {
    #[verifier::type_invariant]
    spec fn paired(self) -> bool {
        p256_public_key(self.secret@) == Some(self.public@)
    }

    /// The SEC1 encoding of the public key.
    pub closed spec fn public_view(self) -> Seq<u8> {
        self.public@
    }

    /// The secret scalar.
    pub closed spec fn secret_view(self) -> Seq<u8> {
        self.secret@
    }

    /// A fresh key pair, drawn from `rng`.
    pub fn generate(rng: &mut StdRng) -> (res: Keys)
        ensures
            p256_public_key(res.secret_view()) == Some(res.public_view()),
    {
        let secret = p256_random_secret(rng);
        let keys = Self::from_secret_bytes(secret);
        keys.unwrap()
    }

    /// The key pair of the secret scalar `secret`, where the bytes are one.
    pub fn from_secret_bytes(secret: Vec<u8>) -> (res: Option<Keys>)
        ensures
            res is Some <==> p256_public_key(secret@) is Some,
            res matches Some(keys) ==> keys.secret_view() == secret@ && Some(keys.public_view())
                == p256_public_key(secret@),
    {
        match p256_derive_public(secret.as_slice()) {
            Some(public) => Some(Keys { secret, public }),
            None => None,
        }
    }

    /// The SEC1 encoding of the public key, for those who verify.
    pub fn public_key(&self) -> (res: &[u8])
        ensures
            res@ == self.public_view(),
    {
        self.public.as_slice()
    }

    /// Signs `message`. The random source serves the scheme's own
    /// randomization; the message is signed as it is.
    ///
    /// A signature that comes back is accepted by this pair's public key
    /// for exactly this message.
    pub fn sign(&self, rng: &mut StdRng, message: &[u8]) -> (res: Result<Signature, CryptoError>)
        ensures
            res matches Ok(signature) ==> signature@.len() == 64 && p256_verifies(
                self.public_view(),
                message@,
                signature@,
            ),
            res matches Err(e) ==> e == CryptoError::SigningFailed,
    {
        proof {
            use_type_invariant(self);
        }
        let outcome = p256_sign(self.secret.as_slice(), rng, message);
        sign_result(outcome)
    }

    /// Whether `signature` is one of `message` under this pair's public key.
    pub fn verify(&self, message: &[u8], signature: &Signature) -> (res: bool)
        ensures
            res == p256_verifies(self.public_view(), message@, signature@),
    {
        signature_verify(self.public_key(), message, signature)
    }
}

impl Clone for Keys {
    fn clone(&self) -> (res: Self)
        ensures
            res.public_view() == self.public_view(),
    {
        proof {
            use_type_invariant(self);
        }
        let secret = self.secret.clone();
        let public = self.public.clone();
        assert(secret@ =~= self.secret@);
        assert(public@ =~= self.public@);
        Keys { secret, public }
    }
}

/// What [`Keys::sign`] makes of what the signing primitive handed back.
pub open spec fn signed(outcome: Option<Vec<u8>>) -> Result<Seq<u8>, CryptoError> {
    match outcome {
        Some(bytes) => Ok(bytes@),
        None => Err(CryptoError::SigningFailed),
    }
}

/// Turns what the signing primitive handed back into the caller's result:
/// the signature where there is one, `SigningFailed` where there is none.
pub fn sign_result(outcome: Option<Vec<u8>>) -> (res: Result<Signature, CryptoError>)
    ensures
        res is Ok <==> outcome is Some,
        res matches Ok(signature) ==> signed(outcome) == Ok::<Seq<u8>, CryptoError>(signature@),
        res matches Err(e) ==> signed(outcome) == Err::<Seq<u8>, CryptoError>(e),
{
    match outcome {
        Some(bytes) => Ok(Signature(bytes)),
        None => Err(CryptoError::SigningFailed),
    }
}

/// Whether `signature` is a valid signature of `message` under the
/// SEC1-encoded key `public_key`. Bytes that are no key, or no signature,
/// verify nothing.
pub fn signature_verify(public_key: &[u8], message: &[u8], signature: &Signature) -> (res: bool)
    ensures
        res == p256_verifies(public_key@, message@, signature@),
{
    p256_verify(public_key, message, signature.0.as_slice())
}

/// The base64 text of `data`, for transport and storage.
pub fn encode_base64(data: &[u8]) -> (res: String)
    requires
        base64_len(data@.len()) <= usize::MAX,
    ensures
        res@ == base64_text(data@),
        res@.len() == base64_len(data@.len()),
{
    base64_encode(data)
}

/// The bytes behind base64 `text`, or `None` where it is not base64.
pub fn decode_base64(text: &str) -> (res: Option<Vec<u8>>)
    ensures
        res is Some <==> base64_bytes(text@) is Some,
        res matches Some(bytes) ==> base64_bytes(text@) == Some(bytes@),
{
    base64_decode(text)
}

} // verus!

//! Sessions: what storage is asked to create, and the signed token made
//! from what it created.

use rand::rngs::StdRng;
use vstd::prelude::*;
use vstd::string::*;

use crate::error::ApiError;
use crate::ids::{lemma_bytes_tell_ids_apart, SessionId, UserId};
use crate::sign::{
    base64_bytes, base64_len, base64_text, decode_base64, encode_base64, is_signature_text,
    p256_verifies, rng_clone, signature_verify, Keys, SessionSignature, Signature,
};
use crate::time::{session_duration, Duration, Timestamp};

verus! {

/// The structured payload attached to a session, as JSON text. Reserved
/// for binding a session to a device; empty for now.
#[derive(Debug)]
pub struct Fingerprint {
    pub json: String,
}

impl View for Fingerprint {
    type V = Seq<char>;

    open spec fn view(&self) -> Seq<char> {
        self.json@
    }
}

impl Fingerprint {
    /// The empty fingerprint: an empty JSON object.
    pub fn empty() -> (res: Fingerprint)
        ensures
            res@ == "{}"@,
    {
        Fingerprint { json: "{}".to_owned() }
    }
}

/// A session, as storage created it.
#[derive(Debug)]
pub struct Session {
    pub id: SessionId,
    pub user_id: UserId,
    pub fingerprint: Fingerprint,
    pub created_at: Timestamp,
    pub expires_at: Timestamp,
}

impl Session {
    /// Whether the session is past its expiry at `now`.
    pub fn is_expired(&self, now: &Timestamp) -> (res: bool)
        ensures
            res == (now.secs > self.expires_at.secs || (now.secs == self.expires_at.secs
                && now.nanos > self.expires_at.nanos)),
    {
        now.is_after(&self.expires_at)
    }
}

/// What storage is asked for when a session is opened.
#[derive(Debug)]
pub struct SessionRequest {
    pub user_id: UserId,
    pub duration: Duration,
    pub fingerprint: Fingerprint,
}

/// Whether `request` is the request for a session of `user_id`: three
/// weeks long, with the empty fingerprint.
pub open spec fn is_session_request(request: SessionRequest, user_id: UserId) -> bool {
    &&& request.user_id == user_id
    &&& request.duration.secs == 1_814_400
    &&& request.fingerprint@ == "{}"@
}

/// The request for a session of `user_id`.
pub fn session_request(user_id: UserId) -> (res: SessionRequest)
    ensures
        is_session_request(res, user_id),
{
    let fingerprint = Fingerprint::empty();
    let duration = session_duration();
    SessionRequest { user_id, duration, fingerprint }
}

/// Whether `issued` is what [`new_session`] may give for `session` under
/// the key `public_key`.
pub open spec fn is_issued(
    session: Session,
    public_key: Seq<u8>,
    issued: (Session, SessionSignature, Duration),
) -> bool {
    &&& issued.0 == session
    &&& is_signature_text(issued.1@, public_key, session.id.bytes())
    &&& issued.1@.len() == 88
    &&& issued.2.secs == 1_814_400
}

/// The session with its signature as text and its duration: what is
/// handed out once the session's identifier is signed.
pub fn signed_session(session: Session, signature: &Signature) -> (res: (
    Session,
    SessionSignature,
    Duration,
))
    requires
        base64_len(signature@.len()) <= usize::MAX,
    ensures
        res.0 == session,
        res.1@ == base64_text(signature@),
        res.1@.len() == base64_len(signature@.len()),
        res.2.secs == 1_814_400,
{
    let encoded = encode_base64(signature.0.as_slice());
    (session, SessionSignature(encoded), session_duration())
}

/// Signs the session that storage created.
///
/// The raw bytes of the session's identifier are signed with `keys`,
/// drawing from a copy of `rng`, and the signature is encoded as base64.
/// The session comes back with the signature and with the duration that
/// was asked for, so that the caller can tell when it ends. Only signing
/// can fail, and is reported as an internal error.
pub fn new_session(keys: &Keys, rng: &StdRng, session: Session) -> (res: Result<
    (Session, SessionSignature, Duration),
    ApiError,
>)
    ensures
        res matches Ok(issued) ==> is_issued(session, keys.public_view(), issued),
        res matches Err(e) ==> e == ApiError::Internal,
{
    let mut rng = rng_clone(rng);
    let message = session.id.as_bytes();
    match keys.sign(&mut rng, message.as_slice()) {
        Ok(signature) => {
            let issued = signed_session(session, &signature);
            Ok(issued)
        },
        Err(e) => Err(ApiError::from_crypto(e)),
    }
}

/// What [`session_signature_verify`] answers.
pub open spec fn signature_text_verifies(
    public_key: Seq<u8>,
    id: SessionId,
    text: Seq<char>,
) -> bool {
    base64_bytes(text) is Some && p256_verifies(public_key, id.bytes(), base64_bytes(text)->0)
}

/// Whether `signature` is the encoded signature of the session `id` under
/// the SEC1-encoded key `public_key`: whether it decodes, and what it
/// decodes to verifies against the identifier's raw bytes.
pub fn session_signature_verify(
    public_key: &[u8],
    id: &SessionId,
    signature: &SessionSignature,
) -> (res: bool)
    ensures
        res == signature_text_verifies(public_key@, *id, signature@),
{
    match decode_base64(signature.0.as_str()) {
        Some(raw) => {
            let message = id.as_bytes();
            signature_verify(public_key, message.as_slice(), &Signature(raw))
        },
        None => false,
    }
}

/// Two sessions with different identifiers are signed apart: each
/// signature is one of its own session's raw bytes, and those bytes
/// differ.
pub proof fn lemma_sessions_are_signed_apart(
    first: Session,
    second: Session,
    public_key: Seq<u8>,
    issued_first: (Session, SessionSignature, Duration),
    issued_second: (Session, SessionSignature, Duration),
)
    requires
        first.id != second.id,
        is_issued(first, public_key, issued_first),
        is_issued(second, public_key, issued_second),
    ensures
        issued_first.0.id != issued_second.0.id,
        first.id.bytes() != second.id.bytes(),
        is_signature_text(issued_first.1@, public_key, issued_first.0.id.bytes()),
        is_signature_text(issued_second.1@, public_key, issued_second.0.id.bytes()),
{
    lemma_bytes_tell_ids_apart(first.id, second.id);
}

} // verus!

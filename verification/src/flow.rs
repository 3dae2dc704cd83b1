//! The credential flows: registration and login.
//!
//! A flow alternates decisions with storage round-trips. The decisions are
//! made here: a request starts a flow and names the first thing to ask of
//! storage; every answer from storage advances the flow and names the next
//! thing to ask, or the reply that ends it. The caller performs what is
//! asked and hands the answer back.
//!
//! A failure at any step ends the flow in `Errored`: storage is asked to
//! open a session only after a user was freshly created or a password was
//! matched against its stored hash.

use rand::rngs::StdRng;
use vstd::prelude::*;

use crate::error::{lookup_error, registration_error, ApiError, CryptoError, StorageError};
use crate::ids::{SessionId, UserId};
use crate::password::{
    deserialize_hash, hash_password, phc_parses, verification, verify_password,
    PasswordHashRecord,
};
use crate::session::{
    is_issued, is_session_request, new_session, session_request, Session, SessionRequest,
};
use crate::sign::{is_signature_text, Keys, SessionSignature};
use crate::text::Handle;
use crate::time::{now, Duration, Timestamp};
use crate::user::User;

verus! {

/// A request to register a user.
#[derive(Debug)]
pub struct CreateUser {
    pub username: Handle,
    pub password: String,
}

/// A request to log a user in.
#[derive(Debug)]
pub struct Login {
    pub username: Handle,
    pub password: String,
}

/// The requests that start a flow.
#[derive(Debug)]
pub enum Request {
    CreateUser(CreateUser),
    Login(Login),
}

/// The reply to a successful registration.
#[derive(Debug)]
pub struct CreateUserOk {
    pub user_id: UserId,
    pub username: Handle,
    pub session_signature: String,
    pub session_id: SessionId,
    pub session_expires: Timestamp,
}

/// The reply to a successful login.
#[derive(Debug)]
pub struct LoginOk {
    pub session_id: SessionId,
    pub session_expires: Timestamp,
    pub session_signature: String,
    pub display_name: Option<String>,
    pub email: Option<String>,
    pub profile_image: Option<String>,
    pub user_id: UserId,
}

/// A successful reply. `Created` answers a registration, `LoggedIn` a
/// login.
#[derive(Debug)]
pub enum Reply {
    Created(CreateUserOk),
    LoggedIn(LoginOk),
}

/// What the caller is to do next.
pub enum Action {
    /// Ask storage to create a user with this hash and handle.
    CreateUser { password_hash: PasswordHashRecord, username: Handle },
    /// Ask storage for the password hash stored under this handle.
    GetPasswordHash { username: Handle },
    /// Ask storage for the user with this handle.
    FindUser { username: Handle },
    /// Ask storage to create a session.
    CreateSession(SessionRequest),
    /// Send this reply. The flow is over.
    Respond(Result<Reply, ApiError>),
}

/// What storage answered.
#[derive(Debug)]
pub enum Event {
    UserCreated(Result<UserId, StorageError>),
    PasswordHash(Result<String, StorageError>),
    UserFound(Result<User, StorageError>),
    SessionCreated(Result<Session, StorageError>),
}

/// Where a flow stands between two steps.
#[derive(Debug)]
pub enum FlowState {
    /// Registration: the password is hashed, storage is creating the user.
    Hashed { username: Handle },
    /// Registration: the user is stored, storage is creating the session.
    Stored { user_id: UserId, username: Handle },
    /// Login: the request is accepted, storage is looking up the hash.
    Validated { username: Handle, password: String },
    /// Login: the password matched, storage is looking up the user.
    Verified { username: Handle },
    /// Login: the user is found, storage is creating the session.
    LookedUp { user: User },
    /// The flow ended with a successful reply.
    Responded,
    /// The flow ended with an error.
    Errored,
}

/// A step of a flow: where it stands now, and what to do next.
pub struct Step {
    pub state: FlowState,
    pub action: Action,
}

/// Whether `step` ends the flow with the error `e`.
pub open spec fn fails_with(step: Step, e: ApiError) -> bool {
    step.state == FlowState::Errored && step.action == Action::Respond(
        Err::<Reply, ApiError>(e),
    )
}

/// Whether `expires` lies one session's length after an instant that the
/// clock can give.
pub open spec fn is_issued_expiry(expires: Timestamp) -> bool {
    -crate::time::CLOCK_RANGE_SECS < expires.secs - 1_814_400 < crate::time::CLOCK_RANGE_SECS
}

/// Whether `ok` answers the registration of `username` as `user_id` with
/// the session `session`, signed as `signature`, ending at `expires`.
pub open spec fn is_create_user_ok(
    ok: CreateUserOk,
    user_id: UserId,
    username: Handle,
    session: Session,
    signature: SessionSignature,
    expires: Timestamp,
) -> bool {
    &&& ok.user_id == user_id
    &&& ok.username == username
    &&& ok.session_signature == signature.0
    &&& ok.session_id == session.id
    &&& ok.session_expires == expires
}

/// Whether `ok` answers the login of `user` with the session `session`,
/// signed as `signature`, ending at `expires`.
pub open spec fn is_login_ok(
    ok: LoginOk,
    user: User,
    session: Session,
    signature: SessionSignature,
    expires: Timestamp,
) -> bool {
    &&& ok.session_id == session.id
    &&& ok.session_expires == expires
    &&& ok.session_signature == signature.0
    &&& ok.display_name == user.display_name
    &&& ok.email == user.email
    &&& ok.profile_image is None
    &&& ok.user_id == user.id
}

/// The reply to a registration: the new user's identifier and handle, the
/// session's identifier and signature, and the instant `duration` after
/// `now` as the session's end.
pub fn create_user_ok(
    user_id: UserId,
    username: Handle,
    session: Session,
    signature: SessionSignature,
    duration: Duration,
    now: Timestamp,
) -> (res: CreateUserOk)
    requires
        now.can_add(duration),
    ensures
        is_create_user_ok(res, user_id, username, session, signature, now.plus(duration)),
        res.session_expires.secs == now.secs + duration.secs,
        res.session_expires.nanos == now.nanos,
{
    let expires = Timestamp { secs: now.secs + duration.secs, nanos: now.nanos };
    CreateUserOk {
        user_id,
        username,
        session_signature: signature.0,
        session_id: session.id,
        session_expires: expires,
    }
}

/// The reply to a login: the session's identifier and signature, the
/// instant `duration` after `now` as the session's end, and the user's
/// identifier, display name and email as stored. No profile image is
/// resolved.
pub fn login_ok(
    user: User,
    session: Session,
    signature: SessionSignature,
    duration: Duration,
    now: Timestamp,
) -> (res: LoginOk)
    requires
        now.can_add(duration),
    ensures
        is_login_ok(res, user, session, signature, now.plus(duration)),
        res.session_expires.secs == now.secs + duration.secs,
        res.session_expires.nanos == now.nanos,
{
    let expires = Timestamp { secs: now.secs + duration.secs, nanos: now.nanos };
    LoginOk {
        session_id: session.id,
        session_expires: expires,
        session_signature: signature.0,
        display_name: user.display_name,
        email: user.email,
        profile_image: None,
        user_id: user.id,
    }
}

/// Whether `step` may follow the registration request `request`.
pub open spec fn registration_begun(request: CreateUser, step: Step) -> bool {
    ||| fails_with(step, ApiError::Internal)
    ||| {
        &&& step.state == FlowState::Hashed { username: request.username }
        &&& step.action matches Action::CreateUser { password_hash, username }
        &&& username@ == request.username@
        &&& verification(request.password@, password_hash@) == Ok::<(), CryptoError>(())
    }
}

/// Whether `step` follows the login request `request`.
pub open spec fn login_begun(request: Login, step: Step) -> bool {
    &&& step.state == FlowState::Validated {
        username: request.username,
        password: request.password,
    }
    &&& step.action matches Action::GetPasswordHash { username }
    &&& username@ == request.username@
}

impl CreateUser {
    /// Starts a registration.
    ///
    /// The password is hashed with a fresh salt, and storage is asked to
    /// create a user with the hash and the handle. Where hashing fails the
    /// flow ends at once with an internal error.
    pub fn process_request(self) -> (res: Step)
        ensures
            registration_begun(self, res),
    {
        match hash_password(self.password.as_str()) {
            Ok(password_hash) => {
                let username = self.username.clone();
                Step {
                    state: FlowState::Hashed { username: self.username },
                    action: Action::CreateUser { password_hash, username },
                }
            },
            Err(_) => Step {
                state: FlowState::Errored,
                action: Action::Respond(Err(ApiError::Internal)),
            },
        }
    }
}

impl Login {
    /// Starts a login: storage is asked for the password hash stored under
    /// the handle.
    pub fn process_request(self) -> (res: Step)
        ensures
            login_begun(self, res),
    {
        let username = self.username.clone();
        Step {
            state: FlowState::Validated { username: self.username, password: self.password },
            action: Action::GetPasswordHash { username },
        }
    }
}

/// Whether `step` may follow `request`.
pub open spec fn begun(request: Request, step: Step) -> bool {
    match request {
        Request::CreateUser(request) => registration_begun(request, step),
        Request::Login(request) => login_begun(request, step),
    }
}

/// Starts the flow that `request` asks for.
pub fn begin(request: Request) -> (res: Step)
    ensures
        begun(request, res),
{
    match request {
        Request::CreateUser(request) => request.process_request(),
        Request::Login(request) => request.process_request(),
    }
}

/// Whether `step` is the step after storage answered `created` to the
/// creation of the user `username`.
pub open spec fn user_created(
    username: Handle,
    created: Result<UserId, StorageError>,
    step: Step,
) -> bool {
    match created {
        Ok(user_id) => {
            &&& step.state == FlowState::Stored { user_id, username }
            &&& step.action matches Action::CreateSession(request)
            &&& is_session_request(request, user_id)
        },
        Err(e) => fails_with(step, registration_error(e)),
    }
}

/// Registration, after storage was asked to create the user.
///
/// For a new user, storage is asked to open a session. A conflict is
/// reported as a failed registration, any other failure unchanged.
pub fn on_user_created(username: Handle, created: Result<UserId, StorageError>) -> (res: Step)
    ensures
        user_created(username, created, res),
{
    match created {
        Ok(user_id) => Step {
            state: FlowState::Stored { user_id, username },
            action: Action::CreateSession(session_request(user_id)),
        },
        Err(e) => Step {
            state: FlowState::Errored,
            action: Action::Respond(Err(ApiError::from_registration(e))),
        },
    }
}

/// How the check of `password` against the stored text `stored` is
/// reported, where it fails.
pub open spec fn password_check(password: Seq<char>, stored: Seq<char>) -> Result<(), ApiError> {
    if !phc_parses(stored) {
        Err(ApiError::Internal)
    } else {
        match verification(password, stored) {
            Ok(_) => Ok(()),
            Err(CryptoError::InvalidCredentials) => Err(ApiError::InvalidCredentials),
            Err(_) => Err(ApiError::Internal),
        }
    }
}

/// Whether `step` is the step after storage answered `found` to the
/// lookup of the password hash of `username`, for a login with `password`.
pub open spec fn password_hash_found(
    username: Handle,
    password: String,
    found: Result<String, StorageError>,
    step: Step,
) -> bool {
    match found {
        Ok(stored) => match password_check(password@, stored@) {
            Ok(_) => {
                &&& step.state == FlowState::Verified { username }
                &&& step.action matches Action::FindUser { username: wanted }
                &&& wanted@ == username@
            },
            Err(e) => fails_with(step, e),
        },
        Err(e) => fails_with(step, lookup_error(e)),
    }
}

/// Login, after storage was asked for the password hash.
///
/// The stored text is parsed and the password verified against it. On a
/// match storage is asked for the user. A mismatch and an unknown handle
/// are both reported as invalid credentials, and for an unknown handle the
/// password is hashed all the same, so that the two take as long. Stored
/// text that is no hash, and a hash that cannot be recomputed, are
/// internal errors; any other storage failure is passed on unchanged.
pub fn on_password_hash(
    username: Handle,
    password: String,
    found: Result<String, StorageError>,
) -> (res: Step)
    ensures
        password_hash_found(username, password, found, res),
{
    let checked: Result<(), ApiError> = match found {
        Ok(stored) => match deserialize_hash(stored.as_str()) {
            Ok(hash) => match verify_password(password.as_str(), &hash) {
                Ok(()) => Ok(()),
                Err(e) => Err(ApiError::from_crypto(e)),
            },
            Err(e) => Err(ApiError::from_crypto(e)),
        },
        Err(e) => {
            if let StorageError::NotFound = e {
                let _ = hash_password(password.as_str());
            }
            Err(ApiError::from_lookup(e))
        },
    };
    match checked {
        Ok(()) => {
            let wanted = username.clone();
            Step {
                state: FlowState::Verified { username },
                action: Action::FindUser { username: wanted },
            }
        },
        Err(e) => Step { state: FlowState::Errored, action: Action::Respond(Err(e)) },
    }
}

/// Whether `step` is the step after storage answered `found` to the
/// lookup of a user.
pub open spec fn user_found(found: Result<User, StorageError>, step: Step) -> bool {
    match found {
        Ok(user) => {
            &&& step.state == FlowState::LookedUp { user }
            &&& step.action matches Action::CreateSession(request)
            &&& is_session_request(request, user.id)
        },
        Err(e) => fails_with(step, ApiError::Storage(e)),
    }
}

/// Login, after storage was asked for the user: storage is asked to open
/// a session for the user, and a storage failure is passed on unchanged.
pub fn on_user_found(found: Result<User, StorageError>) -> (res: Step)
    ensures
        user_found(found, res),
{
    match found {
        Ok(user) => {
            let request = session_request(user.id);
            Step { state: FlowState::LookedUp { user }, action: Action::CreateSession(request) }
        },
        Err(e) => Step {
            state: FlowState::Errored,
            action: Action::Respond(Err(ApiError::Storage(e))),
        },
    }
}

/// Whether `step` may be the step after storage answered `created` to the
/// creation of the session of the registered user `user_id`, `username`.
pub open spec fn registration_session_created(
    user_id: UserId,
    username: Handle,
    created: Result<Session, StorageError>,
    public_key: Seq<u8>,
    step: Step,
) -> bool {
    match created {
        Ok(session) => {
            ||| fails_with(step, ApiError::Internal)
            ||| {
                &&& step.state == FlowState::Responded
                &&& step.action matches Action::Respond(Ok(Reply::Created(ok)))
                &&& ok.user_id == user_id
                &&& ok.username == username
                &&& ok.session_id == session.id
                &&& is_signature_text(ok.session_signature@, public_key, session.id.bytes())
                &&& ok.session_signature@.len() == 88
                &&& is_issued_expiry(ok.session_expires)
            }
        },
        Err(e) => fails_with(step, ApiError::Storage(e)),
    }
}

/// Registration, after storage was asked for the session.
///
/// The session is signed and the reply made, with the session ending
/// three weeks from now. A storage failure is passed on unchanged; a
/// signing failure is an internal error.
pub fn on_registration_session(
    user_id: UserId,
    username: Handle,
    created: Result<Session, StorageError>,
    keys: &Keys,
    rng: &StdRng,
) -> (res: Step)
    ensures
        registration_session_created(user_id, username, created, keys.public_view(), res),
{
    match created {
        Ok(session) => match new_session(keys, rng, session) {
            Ok((session, signature, duration)) => {
                let now = now();
                let ok = create_user_ok(user_id, username, session, signature, duration, now);
                Step { state: FlowState::Responded, action: Action::Respond(Ok(Reply::Created(ok))) }
            },
            Err(e) => Step { state: FlowState::Errored, action: Action::Respond(Err(e)) },
        },
        Err(e) => Step {
            state: FlowState::Errored,
            action: Action::Respond(Err(ApiError::Storage(e))),
        },
    }
}

/// Whether `step` may be the step after storage answered `created` to the
/// creation of the session of the logged-in user `user`.
pub open spec fn login_session_created(
    user: User,
    created: Result<Session, StorageError>,
    public_key: Seq<u8>,
    step: Step,
) -> bool {
    match created {
        Ok(session) => {
            ||| fails_with(step, ApiError::Internal)
            ||| {
                &&& step.state == FlowState::Responded
                &&& step.action matches Action::Respond(Ok(Reply::LoggedIn(ok)))
                &&& ok.session_id == session.id
                &&& is_signature_text(ok.session_signature@, public_key, session.id.bytes())
                &&& ok.session_signature@.len() == 88
                &&& is_issued_expiry(ok.session_expires)
                &&& ok.display_name == user.display_name
                &&& ok.email == user.email
                &&& ok.profile_image is None
                &&& ok.user_id == user.id
            }
        },
        Err(e) => fails_with(step, ApiError::Storage(e)),
    }
}

/// Login, after storage was asked for the session.
///
/// The session is signed and the reply made, with the session ending
/// three weeks from now and the user's fields as stored. A storage failure
/// is passed on unchanged; a signing failure is an internal error.
pub fn on_login_session(
    user: User,
    created: Result<Session, StorageError>,
    keys: &Keys,
    rng: &StdRng,
) -> (res: Step)
    ensures
        login_session_created(user, created, keys.public_view(), res),
{
    match created {
        Ok(session) => match new_session(keys, rng, session) {
            Ok((session, signature, duration)) => {
                let now = now();
                let ok = login_ok(user, session, signature, duration, now);
                Step { state: FlowState::Responded, action: Action::Respond(Ok(Reply::LoggedIn(ok))) }
            },
            Err(e) => Step { state: FlowState::Errored, action: Action::Respond(Err(e)) },
        },
        Err(e) => Step {
            state: FlowState::Errored,
            action: Action::Respond(Err(ApiError::Storage(e))),
        },
    }
}

/// Whether `step` may follow `state` when storage answers `event`, with
/// sessions signed under `public_key`. An answer that the state did not
/// ask for ends the flow with an internal error.
pub open spec fn advanced(state: FlowState, event: Event, public_key: Seq<u8>, step: Step) -> bool {
    match (state, event) {
        (FlowState::Hashed { username }, Event::UserCreated(created)) => user_created(
            username,
            created,
            step,
        ),
        (
            FlowState::Stored { user_id, username },
            Event::SessionCreated(created),
        ) => registration_session_created(user_id, username, created, public_key, step),
        (
            FlowState::Validated { username, password },
            Event::PasswordHash(found),
        ) => password_hash_found(username, password, found, step),
        (FlowState::Verified { username }, Event::UserFound(found)) => user_found(found, step),
        (FlowState::LookedUp { user }, Event::SessionCreated(created)) => login_session_created(
            user,
            created,
            public_key,
            step,
        ),
        _ => fails_with(step, ApiError::Internal),
    }
}

/// Advances a flow by what storage answered.
pub fn advance(state: FlowState, event: Event, keys: &Keys, rng: &StdRng) -> (res: Step)
    ensures
        advanced(state, event, keys.public_view(), res),
{
    match (state, event) {
        (FlowState::Hashed { username }, Event::UserCreated(created)) => on_user_created(
            username,
            created,
        ),
        (
            FlowState::Stored { user_id, username },
            Event::SessionCreated(created),
        ) => on_registration_session(user_id, username, created, keys, rng),
        (FlowState::Validated { username, password }, Event::PasswordHash(found)) => {
            on_password_hash(username, password, found)
        },
        (FlowState::Verified { username }, Event::UserFound(found)) => on_user_found(found),
        (FlowState::LookedUp { user }, Event::SessionCreated(created)) => on_login_session(
            user,
            created,
            keys,
            rng,
        ),
        _ => Step { state: FlowState::Errored, action: Action::Respond(Err(ApiError::Internal)) },
    }
}

/// A request opens no session and sends no successful reply by itself:
/// storage is asked for a user or a hash first.
pub proof fn lemma_request_opens_no_session(request: Request, step: Step)
    requires
        begun(request, step),
    ensures
        !(step.action is CreateSession),
        !(step.action matches Action::Respond(Ok(_))),
        step.state is Hashed || step.state is Validated || step.state is Errored,
{
}

/// Whether storage has just created the user of a registration.
pub open spec fn user_just_created(state: FlowState, event: Event) -> bool {
    match (state, event) {
        (FlowState::Hashed { .. }, Event::UserCreated(Ok(_))) => true,
        _ => false,
    }
}

/// Whether storage has just found the user of a login whose password
/// matched.
pub open spec fn user_just_found(state: FlowState, event: Event) -> bool {
    match (state, event) {
        (FlowState::Verified { .. }, Event::UserFound(Ok(_))) => true,
        _ => false,
    }
}

/// Whether storage has just handed out a hash that the password of the
/// login verifies against.
pub open spec fn password_just_matched(state: FlowState, event: Event) -> bool {
    match (state, event) {
        (FlowState::Validated { password, .. }, Event::PasswordHash(Ok(stored))) => phc_parses(
            stored@,
        ) && verification(password@, stored@) == Ok::<(), CryptoError>(()),
        _ => false,
    }
}

/// Whether storage has just created the session of a flow that was
/// waiting for it.
pub open spec fn session_just_created(state: FlowState, event: Event) -> bool {
    match (state, event) {
        (FlowState::Stored { .. }, Event::SessionCreated(Ok(_))) => true,
        (FlowState::LookedUp { .. }, Event::SessionCreated(Ok(_))) => true,
        _ => false,
    }
}

/// Storage is asked for a session only when it has just created the user
/// of a registration, or has just found the user of a login whose
/// password matched; a login counts as matched only after the password
/// verified against the stored hash; a successful reply follows only a
/// created session; and a flow that has ended stays ended.
pub proof fn lemma_session_needs_credentials(
    state: FlowState,
    event: Event,
    public_key: Seq<u8>,
    step: Step,
)
    requires
        advanced(state, event, public_key, step),
    ensures
        step.action is CreateSession ==> user_just_created(state, event) || user_just_found(
            state,
            event,
        ),
        step.state is Verified ==> password_just_matched(state, event),
        step.state is Stored ==> user_just_created(state, event),
        step.state is LookedUp ==> user_just_found(state, event),
        step.state is Responded ==> session_just_created(state, event),
        state is Responded || state is Errored ==> fails_with(step, ApiError::Internal),
        step.state is Errored <==> (step.action matches Action::Respond(Err(_))),
        step.state is Responded <==> (step.action matches Action::Respond(Ok(_))),
        !(step.state is Hashed) && !(step.state is Validated),
{
}

/// How far a flow has come: the number of answers from storage that it
/// has taken in, or, once it has ended, the most that any flow takes.
pub open spec fn progress(state: FlowState) -> nat {
    match state {
        FlowState::Hashed { .. } => 0,
        FlowState::Validated { .. } => 0,
        FlowState::Stored { .. } => 1,
        FlowState::Verified { .. } => 1,
        FlowState::LookedUp { .. } => 2,
        FlowState::Responded => 3,
        FlowState::Errored => 3,
    }
}

/// Every answer from storage brings a flow nearer to its end: a flow that
/// has not ended moves on, so none takes in more than three answers.
pub proof fn lemma_flow_moves_on(state: FlowState, event: Event, public_key: Seq<u8>, step: Step)
    requires
        advanced(state, event, public_key, step),
    ensures
        progress(step.state) <= 3,
        !(state is Responded || state is Errored) ==> progress(step.state) > progress(state),
{
}

/// A login with an unknown handle and a login with a wrong password end
/// in the same step: the same state and the same reply.
pub proof fn lemma_unknown_handle_looks_like_wrong_password(
    unknown: Login,
    after_unknown: Step,
    known: Login,
    stored: String,
    after_known: Step,
)
    requires
        password_hash_found(
            unknown.username,
            unknown.password,
            Err(StorageError::NotFound),
            after_unknown,
        ),
        password_hash_found(known.username, known.password, Ok(stored), after_known),
        phc_parses(stored@),
        verification(known.password@, stored@) == Err::<(), CryptoError>(
            CryptoError::InvalidCredentials,
        ),
    ensures
        after_unknown == after_known,
        fails_with(after_unknown, ApiError::InvalidCredentials),
{
}

} // verus!

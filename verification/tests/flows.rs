use rand::rngs::StdRng;
use rand::SeedableRng;
use uchat_core::error::{ApiError, StorageError};
use uchat_core::flow::{
    advance, begin, create_user_ok, login_ok, Action, CreateUser, CreateUserOk, Event, FlowState,
    Login, LoginOk, Reply, Request, Step,
};
use uchat_core::ids::{SessionId, UserId};
use uchat_core::password::{deserialize_hash, verify_password};
use uchat_core::session::{session_signature_verify, Fingerprint, Session, SessionRequest};
use uchat_core::sign::{Keys, SessionSignature};
use uchat_core::text::Handle;
use uchat_core::time::{now, Duration, Timestamp};
use uchat_core::user::User;

const THREE_WEEKS: i64 = 3 * 7 * 24 * 60 * 60;

/// Storage, in memory.
struct Store {
    users: Vec<User>,
    sessions: Vec<(SessionId, UserId, i64, String)>,
    next_id: u128,
    broken: bool,
}

impl Store {
    fn new() -> Store {
        Store { users: Vec::new(), sessions: Vec::new(), next_id: 0x1000, broken: false }
    }

    fn fresh_id(&mut self) -> u128 {
        self.next_id = self.next_id.wrapping_mul(0x9e37_79b9_7f4a_7c15_f39c_c060_5ced_c835) ^ 0x5bd1_e995;
        self.next_id
    }

    fn create_user(&mut self, password_hash: String, handle: &str) -> Result<UserId, StorageError> {
        if self.broken {
            return Err(StorageError::Unavailable);
        }
        if self.users.iter().any(|user| user.handle == handle) {
            return Err(StorageError::Conflict);
        }
        let id = UserId(self.fresh_id());
        self.users.push(User {
            id,
            handle: handle.to_string(),
            display_name: None,
            email: None,
            password_hash,
            created_at: Timestamp { secs: 1_700_000_000, nanos: 0 },
        });
        Ok(id)
    }

    fn get_password_hash(&self, handle: &str) -> Result<String, StorageError> {
        if self.broken {
            return Err(StorageError::Unavailable);
        }
        match self.users.iter().find(|user| user.handle == handle) {
            Some(user) => Ok(user.password_hash.clone()),
            None => Err(StorageError::NotFound),
        }
    }

    fn find_user(&self, handle: &str) -> Result<User, StorageError> {
        if self.broken {
            return Err(StorageError::Unavailable);
        }
        match self.users.iter().find(|user| user.handle == handle) {
            Some(user) => Ok(User {
                id: user.id,
                handle: user.handle.clone(),
                display_name: user.display_name.clone(),
                email: user.email.clone(),
                password_hash: user.password_hash.clone(),
                created_at: user.created_at,
            }),
            None => Err(StorageError::NotFound),
        }
    }

    fn create_session(&mut self, request: SessionRequest) -> Result<Session, StorageError> {
        if self.broken {
            return Err(StorageError::Unavailable);
        }
        let id = SessionId(self.fresh_id());
        let created_at = Timestamp { secs: 1_700_000_100, nanos: 0 };
        let expires_at = Timestamp { secs: created_at.secs + request.duration.secs, nanos: 0 };
        self.sessions.push((id, request.user_id, request.duration.secs, request.fingerprint.json.clone()));
        Ok(Session { id, user_id: request.user_id, fingerprint: request.fingerprint, created_at, expires_at })
    }
}

fn keys() -> Keys {
    Keys::from_secret_bytes(vec![0x42u8; 32]).unwrap()
}

fn rng() -> StdRng {
    StdRng::seed_from_u64(7)
}

fn handle(text: &str) -> Handle {
    Handle::new(text.to_string()).unwrap()
}

fn run(request: Request, store: &mut Store, keys: &Keys, rng: &StdRng) -> (FlowState, Result<Reply, ApiError>) {
    let mut step: Step = begin(request);
    loop {
        let event = match step.action {
            Action::Respond(reply) => return (step.state, reply),
            Action::CreateUser { password_hash, username } => {
                Event::UserCreated(store.create_user(password_hash.into_string(), username.as_ref()))
            }
            Action::GetPasswordHash { username } => {
                Event::PasswordHash(store.get_password_hash(username.as_ref()))
            }
            Action::FindUser { username } => Event::UserFound(store.find_user(username.as_ref())),
            Action::CreateSession(request) => Event::SessionCreated(store.create_session(request)),
        };
        step = advance(step.state, event, keys, rng);
    }
}

fn register(store: &mut Store, name: &str, password: &str) -> (FlowState, Result<Reply, ApiError>) {
    let request = Request::CreateUser(CreateUser { username: handle(name), password: password.to_string() });
    run(request, store, &keys(), &rng())
}

fn login(store: &mut Store, name: &str, password: &str) -> (FlowState, Result<Reply, ApiError>) {
    let request = Request::Login(Login { username: handle(name), password: password.to_string() });
    run(request, store, &keys(), &rng())
}

fn created(reply: Result<Reply, ApiError>) -> CreateUserOk {
    match reply {
        Ok(Reply::Created(ok)) => ok,
        other => panic!("not a registration reply: {:?}", other),
    }
}

fn logged_in(reply: Result<Reply, ApiError>) -> LoginOk {
    match reply {
        Ok(Reply::LoggedIn(ok)) => ok,
        other => panic!("not a login reply: {:?}", other),
    }
}

fn failure(reply: Result<Reply, ApiError>) -> ApiError {
    match reply {
        Err(e) => e,
        other => panic!("not a failure: {:?}", other),
    }
}

#[test]
fn registering_alice_opens_a_signed_session() {
    let mut store = Store::new();
    let before = now();
    let (state, reply) = register(&mut store, "alice", "correct-horse");
    let after = now();
    assert!(matches!(state, FlowState::Responded));
    let ok = created(reply);

    assert_eq!(store.users.len(), 1);
    assert_eq!(ok.user_id, store.users[0].id);
    assert_eq!(ok.username.as_ref(), "alice");
    assert_eq!(store.sessions.len(), 1);
    assert_eq!(ok.session_id, store.sessions[0].0);
    assert_eq!(store.sessions[0].1, ok.user_id);
    assert_eq!(store.sessions[0].2, THREE_WEEKS);
    assert_eq!(store.sessions[0].3, "{}");

    assert!(!ok.session_signature.is_empty());
    assert_eq!(ok.session_signature.len(), 88);
    let keys = keys();
    assert!(session_signature_verify(
        keys.public_key(),
        &ok.session_id,
        &SessionSignature(ok.session_signature.clone())
    ));

    assert!(ok.session_expires.secs >= before.secs + THREE_WEEKS);
    assert!(ok.session_expires.secs <= after.secs + THREE_WEEKS);

    // what was stored is a hash of the password, not the password
    let stored = deserialize_hash(&store.users[0].password_hash).unwrap();
    assert_eq!(verify_password("correct-horse", &stored), Ok(()));
    assert!(!store.users[0].password_hash.contains("correct-horse"));
}

#[test]
fn registering_a_taken_handle_fails() {
    let mut store = Store::new();
    created(register(&mut store, "alice", "correct-horse").1);
    let (state, reply) = register(&mut store, "alice", "another-password");
    assert!(matches!(state, FlowState::Errored));
    assert_eq!(failure(reply), ApiError::RegistrationFailed);
    assert_eq!(store.users.len(), 1);
    assert_eq!(store.sessions.len(), 1);
}

#[test]
fn registering_against_a_broken_store_passes_the_error_on() {
    let mut store = Store::new();
    store.broken = true;
    let (state, reply) = register(&mut store, "alice", "correct-horse");
    assert!(matches!(state, FlowState::Errored));
    assert_eq!(failure(reply), ApiError::Storage(StorageError::Unavailable));
    assert!(store.sessions.is_empty());
}

#[test]
fn login_with_the_right_password_opens_a_fresh_session() {
    let mut store = Store::new();
    let registered = created(register(&mut store, "alice", "correct-horse").1);
    store.users[0].display_name = Some("Alice".to_string());
    store.users[0].email = Some("alice@example.com".to_string());

    let before = now();
    let (state, reply) = login(&mut store, "alice", "correct-horse");
    let after = now();
    assert!(matches!(state, FlowState::Responded));
    let ok = logged_in(reply);

    assert_eq!(ok.user_id, registered.user_id);
    assert_ne!(ok.session_id, registered.session_id);
    assert_eq!(store.sessions.len(), 2);
    assert_eq!(ok.session_id, store.sessions[1].0);
    assert_eq!(ok.display_name.as_deref(), Some("Alice"));
    assert_eq!(ok.email.as_deref(), Some("alice@example.com"));
    assert_eq!(ok.profile_image, None);
    assert_eq!(ok.session_signature.len(), 88);
    assert!(ok.session_expires.secs >= before.secs + THREE_WEEKS);
    assert!(ok.session_expires.secs <= after.secs + THREE_WEEKS);

    let keys = keys();
    let signature = SessionSignature(ok.session_signature.clone());
    assert!(session_signature_verify(keys.public_key(), &ok.session_id, &signature));
    assert!(!session_signature_verify(keys.public_key(), &registered.session_id, &signature));
}

#[test]
fn unknown_handle_and_wrong_password_fail_alike() {
    let mut store = Store::new();
    created(register(&mut store, "alice", "correct-horse").1);

    let (unknown_state, unknown) = login(&mut store, "nobody", "correct-horse");
    let (wrong_state, wrong) = login(&mut store, "alice", "wrong-horse");
    let unknown = failure(unknown);
    let wrong = failure(wrong);

    assert_eq!(unknown, ApiError::InvalidCredentials);
    assert_eq!(wrong, ApiError::InvalidCredentials);
    assert_eq!(unknown, wrong);
    assert_eq!(format!("{:?}", unknown), format!("{:?}", wrong));
    assert_eq!(unknown.message(), wrong.message());
    assert!(matches!(unknown_state, FlowState::Errored));
    assert!(matches!(wrong_state, FlowState::Errored));
    // neither attempt opened a session
    assert_eq!(store.sessions.len(), 1);
}

#[test]
fn two_sessions_of_one_user_are_signed_apart() {
    let mut store = Store::new();
    created(register(&mut store, "alice", "correct-horse").1);
    let first = logged_in(login(&mut store, "alice", "correct-horse").1);
    let second = logged_in(login(&mut store, "alice", "correct-horse").1);
    assert_eq!(first.user_id, second.user_id);
    assert_ne!(first.session_id, second.session_id);
    assert_ne!(first.session_signature, second.session_signature);

    let keys = keys();
    let first_signature = SessionSignature(first.session_signature.clone());
    let second_signature = SessionSignature(second.session_signature.clone());
    assert!(session_signature_verify(keys.public_key(), &first.session_id, &first_signature));
    assert!(session_signature_verify(keys.public_key(), &second.session_id, &second_signature));
    assert!(!session_signature_verify(keys.public_key(), &first.session_id, &second_signature));
    assert!(!session_signature_verify(keys.public_key(), &second.session_id, &first_signature));
}

#[test]
fn a_corrupt_stored_hash_is_an_internal_error() {
    let mut store = Store::new();
    created(register(&mut store, "alice", "correct-horse").1);
    store.users[0].password_hash = "not a hash".to_string();
    let (state, reply) = login(&mut store, "alice", "correct-horse");
    assert!(matches!(state, FlowState::Errored));
    assert_eq!(failure(reply), ApiError::Internal);
    assert_eq!(store.sessions.len(), 1);
}

#[test]
fn login_against_a_broken_store_passes_the_error_on() {
    let mut store = Store::new();
    created(register(&mut store, "alice", "correct-horse").1);
    store.broken = true;
    let (state, reply) = login(&mut store, "alice", "correct-horse");
    assert!(matches!(state, FlowState::Errored));
    assert_eq!(failure(reply), ApiError::Storage(StorageError::Unavailable));
}

#[test]
fn the_steps_of_a_registration() {
    let keys = keys();
    let rng = rng();
    let request = CreateUser { username: handle("alice"), password: "correct-horse".to_string() };
    let step = request.process_request();
    assert!(matches!(step.state, FlowState::Hashed { .. }));
    match &step.action {
        Action::CreateUser { password_hash, username } => {
            assert_eq!(username.as_ref(), "alice");
            assert_eq!(verify_password("correct-horse", password_hash), Ok(()));
        }
        _ => panic!("storage is not asked to create the user"),
    }

    let step = advance(step.state, Event::UserCreated(Ok(UserId(5))), &keys, &rng);
    match &step.state {
        FlowState::Stored { user_id, username } => {
            assert_eq!(*user_id, UserId(5));
            assert_eq!(username.as_ref(), "alice");
        }
        _ => panic!("the user is not taken as stored"),
    }
    match &step.action {
        Action::CreateSession(request) => {
            assert_eq!(request.user_id, UserId(5));
            assert_eq!(request.duration, Duration { secs: 1_814_400 });
            assert_eq!(request.fingerprint.json, "{}");
        }
        _ => panic!("storage is not asked for a session"),
    }

    let session = Session {
        id: SessionId(9),
        user_id: UserId(5),
        fingerprint: Fingerprint::empty(),
        created_at: Timestamp { secs: 10, nanos: 0 },
        expires_at: Timestamp { secs: 10 + THREE_WEEKS, nanos: 0 },
    };
    let step = advance(step.state, Event::SessionCreated(Ok(session)), &keys, &rng);
    assert!(matches!(step.state, FlowState::Responded));
    match step.action {
        Action::Respond(Ok(Reply::Created(ok))) => {
            assert_eq!(ok.user_id, UserId(5));
            assert_eq!(ok.session_id, SessionId(9));
            assert_eq!(ok.username.as_ref(), "alice");
        }
        _ => panic!("no reply to the registration"),
    }
}

#[test]
fn the_steps_of_a_login() {
    let keys = keys();
    let rng = rng();
    let mut store = Store::new();
    created(register(&mut store, "alice", "correct-horse").1);
    let stored = store.users[0].password_hash.clone();

    let step = Login { username: handle("alice"), password: "correct-horse".to_string() }.process_request();
    match &step.state {
        FlowState::Validated { username, password } => {
            assert_eq!(username.as_ref(), "alice");
            assert_eq!(password, "correct-horse");
        }
        _ => panic!("the login did not start"),
    }
    assert!(matches!(&step.action, Action::GetPasswordHash { username } if username.as_ref() == "alice"));

    let step = advance(step.state, Event::PasswordHash(Ok(stored)), &keys, &rng);
    assert!(matches!(&step.state, FlowState::Verified { username } if username.as_ref() == "alice"));
    assert!(matches!(&step.action, Action::FindUser { username } if username.as_ref() == "alice"));

    let user = store.find_user("alice").unwrap();
    let user_id = user.id;
    let step = advance(step.state, Event::UserFound(Ok(user)), &keys, &rng);
    assert!(matches!(&step.state, FlowState::LookedUp { user } if user.id == user_id));
    assert!(matches!(&step.action, Action::CreateSession(request) if request.user_id == user_id
        && request.duration.secs == THREE_WEEKS && request.fingerprint.json == "{}"));

    let step = advance(step.state, Event::SessionCreated(Err(StorageError::Unavailable)), &keys, &rng);
    assert!(matches!(step.state, FlowState::Errored));
    assert!(matches!(step.action, Action::Respond(Err(ApiError::Storage(StorageError::Unavailable)))));
}

#[test]
fn a_missing_user_after_a_match_is_a_storage_error() {
    let keys = keys();
    let rng = rng();
    let step = advance(
        FlowState::Verified { username: handle("alice") },
        Event::UserFound(Err(StorageError::NotFound)),
        &keys,
        &rng,
    );
    assert!(matches!(step.state, FlowState::Errored));
    assert!(matches!(step.action, Action::Respond(Err(ApiError::Storage(StorageError::NotFound)))));
}

#[test]
fn a_storage_failure_at_the_hash_lookup_is_passed_on() {
    let keys = keys();
    let rng = rng();
    for failure in [StorageError::Conflict, StorageError::Unavailable] {
        let step = advance(
            FlowState::Validated { username: handle("alice"), password: "pw".to_string() },
            Event::PasswordHash(Err(failure)),
            &keys,
            &rng,
        );
        assert!(matches!(step.state, FlowState::Errored));
        assert!(matches!(step.action, Action::Respond(Err(ApiError::Storage(e))) if e == failure));
    }
}

#[test]
fn an_answer_that_was_not_asked_for_ends_the_flow() {
    let keys = keys();
    let rng = rng();
    let step = advance(
        FlowState::Hashed { username: handle("alice") },
        Event::PasswordHash(Ok("anything".to_string())),
        &keys,
        &rng,
    );
    assert!(matches!(step.state, FlowState::Errored));
    assert!(matches!(step.action, Action::Respond(Err(ApiError::Internal))));

    // a session is not to be had by skipping the password check
    let session = Session {
        id: SessionId(1),
        user_id: UserId(1),
        fingerprint: Fingerprint::empty(),
        created_at: Timestamp { secs: 0, nanos: 0 },
        expires_at: Timestamp { secs: THREE_WEEKS, nanos: 0 },
    };
    let step = advance(
        FlowState::Validated { username: handle("alice"), password: "pw".to_string() },
        Event::SessionCreated(Ok(session)),
        &keys,
        &rng,
    );
    assert!(matches!(step.state, FlowState::Errored));
    assert!(matches!(step.action, Action::Respond(Err(ApiError::Internal))));

    for ended in [FlowState::Responded, FlowState::Errored] {
        let step = advance(ended, Event::UserCreated(Ok(UserId(1))), &keys, &rng);
        assert!(matches!(step.state, FlowState::Errored));
        assert!(matches!(step.action, Action::Respond(Err(ApiError::Internal))));
    }
}

#[test]
fn replies_end_exactly_three_weeks_after_now() {
    let session = Session {
        id: SessionId(0xabc),
        user_id: UserId(0x123),
        fingerprint: Fingerprint::empty(),
        created_at: Timestamp { secs: 900, nanos: 1 },
        expires_at: Timestamp { secs: 900 + THREE_WEEKS, nanos: 1 },
    };
    let ok = create_user_ok(
        UserId(0x123),
        handle("alice"),
        session,
        SessionSignature("c2lnbmF0dXJl".to_string()),
        Duration { secs: 1_814_400 },
        Timestamp { secs: 1_000, nanos: 7 },
    );
    assert_eq!(ok.user_id, UserId(0x123));
    assert_eq!(ok.username.as_ref(), "alice");
    assert_eq!(ok.session_id, SessionId(0xabc));
    assert_eq!(ok.session_signature, "c2lnbmF0dXJl");
    assert_eq!(ok.session_expires, Timestamp { secs: 1_815_400, nanos: 7 });

    let session = Session {
        id: SessionId(0xdef),
        user_id: UserId(0x123),
        fingerprint: Fingerprint::empty(),
        created_at: Timestamp { secs: 900, nanos: 1 },
        expires_at: Timestamp { secs: 900 + THREE_WEEKS, nanos: 1 },
    };
    let user = User {
        id: UserId(0x123),
        handle: "alice".to_string(),
        display_name: Some("Alice".to_string()),
        email: None,
        password_hash: "$argon2id$...".to_string(),
        created_at: Timestamp { secs: 5, nanos: 0 },
    };
    let ok = login_ok(
        user,
        session,
        SessionSignature("c2ln".to_string()),
        Duration { secs: 1_814_400 },
        Timestamp { secs: -1_814_400, nanos: 0 },
    );
    assert_eq!(ok.session_id, SessionId(0xdef));
    assert_eq!(ok.session_expires, Timestamp { secs: 0, nanos: 0 });
    assert_eq!(ok.session_signature, "c2ln");
    assert_eq!(ok.display_name.as_deref(), Some("Alice"));
    assert_eq!(ok.email, None);
    assert_eq!(ok.profile_image, None);
    assert_eq!(ok.user_id, UserId(0x123));
}

use api_server::api_user::get_user;
use api_server::error_response::Errors;
use api_server::frontend_url::FrontendUrl;
use api_server::github_client_info::GitHubClientInfo;
use api_server::jwt_secret::{JwtSecret, SecretAction, SecretEvent, SecretState};
use api_server::models::{GitHubUserInfo, NewGitHubLoginSessionInformation, SystemData};
use api_server::redirect::Redirect;
use api_server::session::Session;
use api_server::startup::StartupError;
use api_server::strings::decimal_u16;
use api_server::utils::{QueryError, ToErr, ToErrString, ToInternalStatusError, ToOk, ToOptional};
use std::cell::RefCell;

struct MemoryStore {
    rows: RefCell<Vec<SystemData>>,
    fail_get: bool,
    fail_insert: bool,
}

impl MemoryStore {
    fn get(&self, key: &str) -> Result<Option<SystemData>, String> {
        if self.fail_get {
            return Err("no connection".to_string());
        }
        Ok(self.rows.borrow().iter().find(|d| d.key == key).map(|d| SystemData {
            key: d.key.clone(),
            content: d.content.clone(),
        }))
    }

    fn insert(&self, data: &SystemData) -> Result<(), String> {
        if self.fail_insert {
            return Err("read only".to_string());
        }
        self.rows.borrow_mut().push(SystemData { key: data.key.clone(), content: data.content.clone() });
        Ok(())
    }
}

/// Reads or creates a secret in `store`, doing the store work that the secret steps ask for.
fn get_or_create_secret(store: &MemoryStore, name: &str, size: usize) -> Result<JwtSecret, String> {
    let (mut state, mut action) = SecretState::start(name, size);
    loop {
        let event = match action {
            SecretAction::LoadSecret { name } => SecretEvent::Loaded(store.get(&name)),
            SecretAction::InsertSecret { data } => SecretEvent::Inserted(store.insert(&data)),
            SecretAction::Finish(result) => return result,
        };
        assert!(state.answered_by(&event));
        let next = state.step(event);
        state = next.0;
        action = next.1;
    }
}

#[test]
fn generated_secret_is_empty() {
    assert!(JwtSecret::generate_secret(256).is_empty());
    assert!(JwtSecret::generate_secret(0).is_empty());
}

#[test]
fn secret_is_read_or_created() {
    let store = MemoryStore { rows: RefCell::new(vec![]), fail_get: false, fail_insert: false };
    let created = get_or_create_secret(&store, "jwt_secret", 256).unwrap();
    assert!(created.data().is_empty());
    assert_eq!(store.rows.borrow().len(), 1);
    assert_eq!(store.rows.borrow()[0].key, "jwt_secret");
    store.rows.borrow_mut()[0].content = vec![1, 2, 3];
    let read = get_or_create_secret(&store, "jwt_secret", 256).unwrap();
    assert_eq!(read.data(), &vec![1, 2, 3]);
    assert_eq!(store.rows.borrow().len(), 1);
}

#[test]
fn secret_failures_are_reported() {
    let store = MemoryStore { rows: RefCell::new(vec![]), fail_get: true, fail_insert: false };
    assert_eq!(
        get_or_create_secret(&store, "k", 32).unwrap_err(),
        "Failed to get existing secret key: no connection"
    );
    let store = MemoryStore { rows: RefCell::new(vec![]), fail_get: false, fail_insert: true };
    assert_eq!(
        get_or_create_secret(&store, "k", 32).unwrap_err(),
        "Failed to insert new secret: read only"
    );
}

#[test]
fn secret_steps() {
    let (state, action) = SecretState::start::<api_server::jwt::Jwt>("cookie_secret", 32);
    assert!(matches!(&action, SecretAction::LoadSecret { name } if name == "cookie_secret"));
    let (state, action) = state.step::<api_server::jwt::Jwt>(SecretEvent::Loaded(Ok(None)));
    match &action {
        SecretAction::InsertSecret { data } => {
            assert_eq!(data.key, "cookie_secret");
            assert!(data.content.is_empty());
        },
        other => panic!("unexpected {:?}", other),
    }
    let (state, action) = state.step::<api_server::jwt::Jwt>(SecretEvent::Inserted(Ok(())));
    assert!(matches!(state, SecretState::Finished));
    assert!(matches!(action, SecretAction::Finish(Ok(s)) if s.data().is_empty()));
    assert!(!state.answered_by(&SecretEvent::Inserted(Ok(()))));

    let (state, _) = SecretState::start::<api_server::jwt::Jwt>("k", 32);
    let found = SystemData { key: "k".to_string(), content: vec![9] };
    let (_, action) = state.step::<api_server::jwt::Jwt>(SecretEvent::Loaded(Ok(Some(found))));
    assert!(matches!(action, SecretAction::Finish(Ok(s)) if s.data() == &vec![9u8]));

    let (state, _) = SecretState::start::<api_server::jwt::Jwt>("k", 32);
    let (_, action) = state.step::<api_server::jwt::Jwt>(SecretEvent::Loaded(Err("gone".to_string())));
    assert!(matches!(action, SecretAction::Finish(Err(m)) if m == "Failed to get existing secret key: gone"));

    let (state, _) = SecretState::start::<api_server::jwt::Jwt>("k", 32);
    let (state, _) = state.step::<api_server::jwt::Jwt>(SecretEvent::Loaded(Ok(None)));
    assert!(!state.answered_by(&SecretEvent::Loaded(Ok(None))));
    let (_, action) = state.step::<api_server::jwt::Jwt>(SecretEvent::Inserted(Err("x".to_string())));
    assert!(matches!(action, SecretAction::Finish(Err(m)) if m == "Failed to insert new secret: x"));
}

#[test]
fn startup_error_text() {
    let e: StartupError = StartupError::from("missing port".to_string());
    assert_eq!(e.to_display_string(), "Failed to get configs: missing port");
    let io = StartupError::from(std::io::Error::new(std::io::ErrorKind::Other, "boom"));
    assert_eq!(io.to_display_string(), "IO Error: boom");
}

#[test]
fn result_helpers() {
    let r: Result<u8, String> = ToOk::ok(5u8);
    assert_eq!(r, Ok(5));
    let e: Result<u8, String> = "bad".to_string().err();
    assert_eq!(e, Err("bad".to_string()));
    let q: Result<u8, QueryError> = Err(QueryError::NotFound);
    assert!(matches!(q.to_optional(), Ok(None)));
    let q: Result<u8, QueryError> = Err(QueryError::Other("down".to_string()));
    assert!(matches!(q.to_optional(), Err(QueryError::Other(m)) if m == "down"));
    let q: Result<u8, QueryError> = Ok(1);
    assert!(matches!(q.to_optional(), Ok(Some(1))));
    let parsed: Result<u8, std::num::ParseIntError> = "x".parse::<u8>();
    assert_eq!(parsed.to_err_string(), Err("invalid digit found in string".to_string()));
    let mut logged = String::new();
    let failed: Result<u8, String> = Err("db gone".to_string());
    let mapped = failed.to_internal_err(|e| logged = e);
    assert!(matches!(mapped, Err(Errors::InternalError(m)) if m == "db gone"));
    assert_eq!(logged, "db gone");
    let mut calls = 0;
    let fine: Result<u8, String> = Ok(3);
    assert!(matches!(fine.to_internal_err(|_| calls += 1), Ok(3)));
    assert_eq!(calls, 0);
    let failed: Result<u8, String> = Err("once".to_string());
    let _ = failed.to_internal_err(|_| calls += 1);
    assert_eq!(calls, 1);
}

#[test]
fn user_api_answers() {
    let info = GitHubUserInfo {
        id: 1,
        login: "l".to_string(),
        name: "Name".to_string(),
        email: None,
        avatar_url: "http://a".to_string(),
        user_id: 77,
    };
    let r = get_user(Ok(Some(info))).unwrap();
    assert_eq!((r.id, r.name.as_str(), r.avatar_url.as_str()), (77, "Name", "http://a"));
    assert!(matches!(get_user(Ok(None)), Err(Errors::NotFound)));
    assert!(matches!(get_user(Err("q".to_string())), Err(Errors::InternalError(m)) if m == "q"));
}

#[test]
fn sessions_and_small_types() {
    assert_eq!(Session::resolve(Some(12)).id, 12);
    let a = Session::resolve(None);
    let b = Session::resolve(None);
    assert_ne!(a.id, b.id);
    let new_login = NewGitHubLoginSessionInformation::new(12, "c", "v", "http://r");
    assert_eq!((new_login.session_id, new_login.csrf_token, new_login.pkce_verifier, new_login.return_url), (12, "c", "v", "http://r"));
    assert_eq!(FrontendUrl::new("http://f".to_string()).value(), "http://f");
    assert_eq!(Redirect::to("http://x".to_string()).to, "http://x");
    assert_eq!(decimal_u16(0), "0");
    assert_eq!(decimal_u16(9000), "9000");
    assert_eq!(decimal_u16(u16::MAX), "65535");
}

#[test]
fn secret_derefs_to_its_bytes() {
    let (state, _) = SecretState::start::<api_server::jwt::Jwt>("k", 2);
    let stored = SystemData { key: "k".to_string(), content: vec![4, 5] };
    let s = match state.step::<api_server::jwt::Jwt>(SecretEvent::Loaded(Ok(Some(stored)))).1 {
        SecretAction::Finish(Ok(s)) => s,
        other => panic!("unexpected {:?}", other),
    };
    assert_eq!(s.len(), 2);
    assert_eq!(&*s, &vec![4u8, 5]);
}

#[test]
fn user_orgs_reply_is_empty_list() {
    assert!(GitHubClientInfo::user_orgs_from_reply(Ok("[{\"login\":\"org\"}]".to_string())).unwrap().is_empty());
    assert_eq!(GitHubClientInfo::user_orgs_from_reply(Err("down".to_string())).unwrap_err(), "down");
}

#[test]
fn secret_is_created_once() {
    let store = MemoryStore { rows: RefCell::new(vec![]), fail_get: false, fail_insert: false };
    let first = get_or_create_secret(&store, "jwt_secret", 256).unwrap();
    let second = get_or_create_secret(&store, "jwt_secret", 32).unwrap();
    assert_eq!(first.data(), second.data());
    assert_eq!(store.rows.borrow().len(), 1);
}

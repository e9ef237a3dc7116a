use api_server::github_client_info::GitHubUser;
use api_server::models::{GitHubUserInfo, User};
use api_server::users::{FindOrCreateState, UserStoreAction, UserStoreEvent};

fn github_user() -> GitHubUser {
    GitHubUser {
        id: 42,
        login: "octo".to_string(),
        email: Some("octo@example.com".to_string()),
        avatar_url: "http://avatar".to_string(),
        name: "Octo Cat".to_string(),
    }
}

fn linked(user_id: u128) -> GitHubUserInfo {
    GitHubUserInfo {
        id: 42,
        login: "old".to_string(),
        name: "Old".to_string(),
        email: None,
        avatar_url: "http://old".to_string(),
        user_id,
    }
}

#[test]
fn creates_user_for_new_account() {
    let (state, action) = FindOrCreateState::start(github_user());
    assert!(matches!(action, UserStoreAction::FindGitHubAccount { github_id: 42 }));
    let (state, action) = state.step(UserStoreEvent::AccountFound(Ok(None)));
    let new_id = match action {
        UserStoreAction::InsertUser { user } => user.id,
        other => panic!("unexpected {:?}", other),
    };
    let (state, action) = state.step(UserStoreEvent::UserInserted(Ok(())));
    match &action {
        UserStoreAction::UpsertGitHubAccount { info } => {
            assert_eq!(info.id, 42);
            assert_eq!(info.login, "octo");
            assert_eq!(info.user_id, new_id);
            assert_eq!(info.email.as_deref(), Some("octo@example.com"));
        },
        other => panic!("unexpected {:?}", other),
    }
    let (state, action) = state.step(UserStoreEvent::AccountUpserted(Ok(new_id)));
    assert!(matches!(state, FindOrCreateState::Finished));
    assert!(matches!(action, UserStoreAction::Finish(Ok(User { id })) if id == new_id));
}

#[test]
fn removes_duplicate_when_account_was_linked_concurrently() {
    let (state, _) = FindOrCreateState::start(github_user());
    let (state, _) = state.step(UserStoreEvent::AccountFound(Ok(None)));
    let (state, _) = state.step(UserStoreEvent::UserInserted(Ok(())));
    let new_id = match &state {
        FindOrCreateState::LinkingAccount { new_id } => *new_id,
        other => panic!("unexpected {:?}", other),
    };
    let other_id = new_id.wrapping_add(1);
    let (state, action) = state.step(UserStoreEvent::AccountUpserted(Ok(other_id)));
    assert!(matches!(action, UserStoreAction::DeleteUser { id } if id == new_id));
    let (state, action) = state.step(UserStoreEvent::UserDeleted(Ok(())));
    assert!(matches!(state, FindOrCreateState::Finished));
    assert!(matches!(action, UserStoreAction::Finish(Ok(User { id })) if id == other_id));
}

#[test]
fn refreshes_existing_account() {
    let (state, _) = FindOrCreateState::start(github_user());
    let (state, action) = state.step(UserStoreEvent::AccountFound(Ok(Some(linked(5)))));
    match &action {
        UserStoreAction::UpdateGitHubAccount { github_id, update } => {
            assert_eq!(*github_id, 42);
            assert_eq!(update.login, "octo");
            assert_eq!(update.name, "Octo Cat");
        },
        other => panic!("unexpected {:?}", other),
    }
    let (state, action) = state.step(UserStoreEvent::AccountUpdated(Ok(5)));
    assert!(matches!(action, UserStoreAction::LoadUser { id: 5 }));
    let (_, action) = state.step(UserStoreEvent::UserLoaded(Ok(User { id: 5 })));
    assert!(matches!(action, UserStoreAction::Finish(Ok(User { id: 5 }))));
}

#[test]
fn failures_finish_with_their_message() {
    let (state, _) = FindOrCreateState::start(github_user());
    let (state, action) = state.step(UserStoreEvent::AccountFound(Err("connection lost".to_string())));
    assert!(matches!(state, FindOrCreateState::Finished));
    assert!(matches!(action, UserStoreAction::Finish(Err(m)) if m == "connection lost"));
    let state = FindOrCreateState::LinkingAccount { new_id: 1 };
    assert!(state.answered_by(&UserStoreEvent::AccountUpserted(Ok(1))));
    assert!(!state.answered_by(&UserStoreEvent::UserDeleted(Ok(()))));
}

/// A database holding links from GitHub ids to user ids and a set of users,
/// answering each action as the real one would.
struct MemoryDb {
    links: std::collections::HashMap<i32, u128>,
    users: std::collections::HashSet<u128>,
}

impl MemoryDb {
    fn new() -> MemoryDb {
        MemoryDb { links: std::collections::HashMap::new(), users: std::collections::HashSet::new() }
    }

    fn answer(&mut self, action: &UserStoreAction) -> UserStoreEvent {
        match action {
            UserStoreAction::FindGitHubAccount { github_id } => {
                UserStoreEvent::AccountFound(Ok(self.links.get(github_id).map(|u| linked(*u))))
            },
            UserStoreAction::InsertUser { user } => {
                self.users.insert(user.id);
                UserStoreEvent::UserInserted(Ok(()))
            },
            UserStoreAction::UpsertGitHubAccount { info } => {
                let id = *self.links.entry(info.id).or_insert(info.user_id);
                UserStoreEvent::AccountUpserted(Ok(id))
            },
            UserStoreAction::DeleteUser { id } => {
                self.users.remove(id);
                UserStoreEvent::UserDeleted(Ok(()))
            },
            UserStoreAction::UpdateGitHubAccount { github_id, .. } => match self.links.get(github_id) {
                Some(id) => UserStoreEvent::AccountUpdated(Ok(*id)),
                None => UserStoreEvent::AccountUpdated(Err("not found".to_string())),
            },
            UserStoreAction::LoadUser { id } => UserStoreEvent::UserLoaded(Ok(User { id: *id })),
            UserStoreAction::Finish(_) => panic!("nothing to answer"),
        }
    }
}

/// Runs one find-or-create to its end against `db`.
fn run_alone(db: &mut MemoryDb, user: GitHubUser) -> Result<User, String> {
    let (mut state, mut action) = FindOrCreateState::start(user);
    loop {
        if let UserStoreAction::Finish(r) = action {
            return r;
        }
        let event = db.answer(&action);
        let next = state.step(event);
        state = next.0;
        action = next.1;
    }
}

#[test]
fn second_run_finds_the_first_user() {
    let mut db = MemoryDb::new();
    let first = run_alone(&mut db, github_user()).unwrap();
    let users_after_first = db.users.clone();
    let mut renamed = github_user();
    renamed.login = "renamed".to_string();
    let second = run_alone(&mut db, renamed).unwrap();
    assert_eq!(first.id, second.id);
    assert_eq!(db.users, users_after_first);
    assert_eq!(db.links.get(&42), Some(&first.id));
}

#[test]
fn concurrent_runs_agree_on_the_user() {
    let mut db = MemoryDb::new();
    let (a, mut action_a) = FindOrCreateState::start(github_user());
    let (b, mut action_b) = FindOrCreateState::start(github_user());
    let (mut state_a, mut state_b) = (a, b);
    // Both look the account up before either links it, then take turns.
    let mut results: (Option<Result<User, String>>, Option<Result<User, String>>) = (None, None);
    while results.0.is_none() || results.1.is_none() {
        if results.0.is_none() {
            if let UserStoreAction::Finish(r) = action_a {
                results.0 = Some(r);
                action_a = UserStoreAction::Finish(Err(String::new()));
            } else {
                let event = db.answer(&action_a);
                let next = state_a.step(event);
                state_a = next.0;
                action_a = next.1;
            }
        }
        if results.1.is_none() {
            if let UserStoreAction::Finish(r) = action_b {
                results.1 = Some(r);
                action_b = UserStoreAction::Finish(Err(String::new()));
            } else {
                let event = db.answer(&action_b);
                let next = state_b.step(event);
                state_b = next.0;
                action_b = next.1;
            }
        }
    }
    let ra = results.0.unwrap().unwrap();
    let rb = results.1.unwrap().unwrap();
    assert_eq!(ra.id, rb.id);
    assert_eq!(db.links.get(&42), Some(&ra.id));
    assert_eq!(db.users.len(), 1);
    assert!(db.users.contains(&ra.id));
}

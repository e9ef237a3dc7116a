//! Finding the system user that a GitHub account belongs to, or creating
//! one, as a sequence of database steps. The database work is done by the
//! caller inside one transaction; this module decides each next step from
//! what the previous one answered.

use vstd::prelude::*;
use crate::github_client_info::GitHubUser;
use crate::ids::{is_uuid_v4, uuid_new_v4};
use crate::models::{GitHubUserInfo, GitHubUserInfoUpdate, User};

verus! {

/// Where a find-or-create of a GitHub user stands.
#[derive(Debug)]
pub enum FindOrCreateState {
    /// Waiting for the lookup of the GitHub account.
    Looking { user: GitHubUser },
    /// Waiting for the insertion of a new system user `new_id`.
    CreatingUser { user: GitHubUser, new_id: u128 },
    /// Waiting for the GitHub account to be linked (inserted, or updated if
    /// another transaction linked it first); the store answers the user id
    /// that the account is linked to.
    LinkingAccount { new_id: u128 },
    /// The account turned out linked to `linked_id`; waiting for the
    /// superfluous user `new_id` to be deleted.
    RemovingDuplicate { new_id: u128, linked_id: u128 },
    /// Waiting for the existing account's details to be refreshed; the store
    /// answers the user id the account is linked to.
    UpdatingAccount,
    /// Waiting for the system user to be loaded.
    LoadingUser,
    /// Nothing more to do.
    Finished,
}

/// What the database is asked to do next.
#[derive(Debug)]
pub enum UserStoreAction {
    /// Look up the linked GitHub account with this GitHub id.
    FindGitHubAccount { github_id: i32 },
    /// Insert a new system user.
    InsertUser { user: User },
    /// Insert the account, or on a conflicting GitHub id update it, and answer
    /// the user id it is linked to.
    UpsertGitHubAccount { info: GitHubUserInfo },
    /// Delete a system user.
    DeleteUser { id: u128 },
    /// Refresh the account with this GitHub id and answer the user id it is
    /// linked to.
    UpdateGitHubAccount { github_id: i32, update: GitHubUserInfoUpdate },
    /// Load the system user with this id.
    LoadUser { id: u128 },
    /// The find-or-create is over, with this result.
    Finish(Result<User, String>),
}

/// What the database answered to the last action.
#[derive(Debug)]
pub enum UserStoreEvent {
    AccountFound(Result<Option<GitHubUserInfo>, String>),
    UserInserted(Result<(), String>),
    AccountUpserted(Result<u128, String>),
    UserDeleted(Result<(), String>),
    AccountUpdated(Result<u128, String>),
    UserLoaded(Result<User, String>),
}

/// The new account record that links a GitHub account to the user `user_id`.
pub open spec fn links(info: GitHubUserInfo, user: GitHubUser, user_id: u128) -> bool {
    &&& info.id == user.id
    &&& info.login == user.login
    &&& info.name == user.name
    &&& info.email == user.email
    &&& info.avatar_url == user.avatar_url
    &&& info.user_id == user_id
}

/// The refreshed fields of an account taken from the GitHub account.
pub open spec fn refreshes(update: GitHubUserInfoUpdate, user: GitHubUser) -> bool {
    &&& update.login == user.login
    &&& update.name == user.name
    &&& update.email == user.email
    &&& update.avatar_url == user.avatar_url
}

/// Whether an event answers the action that a state waits for.
pub open spec fn answers(state: FindOrCreateState, event: UserStoreEvent) -> bool {
    match (state, event) {
        (FindOrCreateState::Looking { .. }, UserStoreEvent::AccountFound(_)) => true,
        (FindOrCreateState::CreatingUser { .. }, UserStoreEvent::UserInserted(_)) => true,
        (FindOrCreateState::LinkingAccount { .. }, UserStoreEvent::AccountUpserted(_)) => true,
        (FindOrCreateState::RemovingDuplicate { .. }, UserStoreEvent::UserDeleted(_)) => true,
        (FindOrCreateState::UpdatingAccount, UserStoreEvent::AccountUpdated(_)) => true,
        (FindOrCreateState::LoadingUser, UserStoreEvent::UserLoaded(_)) => true,
        _ => false,
    }
}

/// The error an event carries, if it reports a failure.
pub open spec fn event_error(event: UserStoreEvent) -> Option<String> {
    match event {
        UserStoreEvent::AccountFound(Err(e)) => Some(e),
        UserStoreEvent::UserInserted(Err(e)) => Some(e),
        UserStoreEvent::AccountUpserted(Err(e)) => Some(e),
        UserStoreEvent::UserDeleted(Err(e)) => Some(e),
        UserStoreEvent::AccountUpdated(Err(e)) => Some(e),
        UserStoreEvent::UserLoaded(Err(e)) => Some(e),
        _ => None,
    }
}

/// One step of the find-or-create: from a state and the answer to its action,
/// the next state and action.
/// - a failure answer finishes with that failure;
/// - an account that is not found is created: first a new user `new_id`
///   (a random version-4 UUID), then the account linked to it;
/// - if the linked account answers a user other than `new_id` (another
///   transaction linked it first), `new_id` is deleted and the linked user is
///   the result; otherwise the new user is;
/// - an account that is found is refreshed, and the user it is linked to is
///   loaded and is the result.
pub open spec fn user_step(
    state: FindOrCreateState,
    event: UserStoreEvent,
    next: (FindOrCreateState, UserStoreAction),
) -> bool {
    let (s, a) = next;
    answers(state, event) && match event_error(event) {
        Some(e) => s is Finished && a == UserStoreAction::Finish(Err(e)),
        None => match (state, event) {
            (FindOrCreateState::Looking { user }, UserStoreEvent::AccountFound(Ok(None))) => {
                &&& s matches FindOrCreateState::CreatingUser { user: u, new_id } && u == user
                    && a == (UserStoreAction::InsertUser { user: User { id: new_id } })
                    && is_uuid_v4(new_id)
            },
            (FindOrCreateState::Looking { user }, UserStoreEvent::AccountFound(Ok(Some(_)))) => {
                &&& s is UpdatingAccount
                &&& a matches UserStoreAction::UpdateGitHubAccount { github_id, update }
                    && github_id == user.id && refreshes(update, user)
            },
            (FindOrCreateState::CreatingUser { user, new_id }, UserStoreEvent::UserInserted(Ok(()))) => {
                &&& s == FindOrCreateState::LinkingAccount { new_id }
                &&& a matches UserStoreAction::UpsertGitHubAccount { info } && links(info, user, new_id)
            },
            (FindOrCreateState::LinkingAccount { new_id }, UserStoreEvent::AccountUpserted(Ok(linked_id))) => {
                if linked_id != new_id {
                    &&& s == FindOrCreateState::RemovingDuplicate { new_id, linked_id }
                    &&& a == UserStoreAction::DeleteUser { id: new_id }
                } else {
                    &&& s is Finished
                    &&& a == UserStoreAction::Finish(Ok(User { id: new_id }))
                }
            },
            (FindOrCreateState::RemovingDuplicate { new_id, linked_id }, UserStoreEvent::UserDeleted(Ok(()))) => {
                &&& s is Finished
                &&& a == UserStoreAction::Finish(Ok(User { id: linked_id }))
            },
            (FindOrCreateState::UpdatingAccount, UserStoreEvent::AccountUpdated(Ok(user_id))) => {
                &&& s is LoadingUser
                &&& a == UserStoreAction::LoadUser { id: user_id }
            },
            (FindOrCreateState::LoadingUser, UserStoreEvent::UserLoaded(Ok(user))) => {
                &&& s is Finished
                &&& a == UserStoreAction::Finish(Ok(user))
            },
            _ => false,
        },
    }
}

impl FindOrCreateState {
    /// Starts finding or creating the system user of a GitHub account: the
    /// account is looked up by its GitHub id.
    pub fn start(user: GitHubUser) -> (res: (FindOrCreateState, UserStoreAction))
        ensures
            res.0 == (FindOrCreateState::Looking { user }),
            res.1 == (UserStoreAction::FindGitHubAccount { github_id: user.id }),
    {
        let github_id = user.id;
        (FindOrCreateState::Looking { user }, UserStoreAction::FindGitHubAccount { github_id })
    }

    /// Whether `event` answers the action this state waits for.
    pub fn answered_by(&self, event: &UserStoreEvent) -> (res: bool)
        ensures
            res == answers(*self, *event),
    {
        match (self, event) {
            (FindOrCreateState::Looking { .. }, UserStoreEvent::AccountFound(_)) => true,
            (FindOrCreateState::CreatingUser { .. }, UserStoreEvent::UserInserted(_)) => true,
            (FindOrCreateState::LinkingAccount { .. }, UserStoreEvent::AccountUpserted(_)) => true,
            (FindOrCreateState::RemovingDuplicate { .. }, UserStoreEvent::UserDeleted(_)) => true,
            (FindOrCreateState::UpdatingAccount, UserStoreEvent::AccountUpdated(_)) => true,
            (FindOrCreateState::LoadingUser, UserStoreEvent::UserLoaded(_)) => true,
            _ => false,
        }
    }

    /// Takes one step; see `user_step`.
    pub fn step(self, event: UserStoreEvent) -> (res: (FindOrCreateState, UserStoreAction))
        requires
            answers(self, event),
        ensures
            user_step(self, event, res),
            self matches FindOrCreateState::CreatingUser { user, new_id } ==> (event matches UserStoreEvent::UserInserted(Ok(_))
                ==> (res.1 matches UserStoreAction::UpsertGitHubAccount { info } && info.id == user.id
                    && info.login == user.login && info.name == user.name && info.email == user.email
                    && info.avatar_url == user.avatar_url && info.user_id == new_id)),
            self matches FindOrCreateState::Looking { user } ==> (event matches UserStoreEvent::AccountFound(Ok(Some(_)))
                ==> (res.1 matches UserStoreAction::UpdateGitHubAccount { github_id, update } && github_id == user.id
                    && update.login == user.login && update.name == user.name && update.email == user.email
                    && update.avatar_url == user.avatar_url)),
    {
        match self {
            FindOrCreateState::Looking { user } => match event {
                UserStoreEvent::AccountFound(Err(e)) => (FindOrCreateState::Finished, UserStoreAction::Finish(Err(e))),
                UserStoreEvent::AccountFound(Ok(None)) => {
                    let new_id = uuid_new_v4();
                    (FindOrCreateState::CreatingUser { user, new_id }, UserStoreAction::InsertUser { user: User { id: new_id } })
                },
                UserStoreEvent::AccountFound(Ok(Some(_))) => {
                    let github_id = user.id;
                    let update = GitHubUserInfoUpdate {
                        login: user.login,
                        name: user.name,
                        email: user.email,
                        avatar_url: user.avatar_url,
                    };
                    (FindOrCreateState::UpdatingAccount, UserStoreAction::UpdateGitHubAccount { github_id, update })
                },
                _ => {
                    proof {
                        assert(false);
                    }
                    (FindOrCreateState::Finished, UserStoreAction::Finish(Err(String::new())))
                },
            },
            FindOrCreateState::CreatingUser { user, new_id } => match event {
                UserStoreEvent::UserInserted(Err(e)) => (FindOrCreateState::Finished, UserStoreAction::Finish(Err(e))),
                UserStoreEvent::UserInserted(Ok(())) => {
                    let info = GitHubUserInfo {
                        id: user.id,
                        login: user.login,
                        name: user.name,
                        email: user.email,
                        avatar_url: user.avatar_url,
                        user_id: new_id,
                    };
                    (FindOrCreateState::LinkingAccount { new_id }, UserStoreAction::UpsertGitHubAccount { info })
                },
                _ => {
                    proof {
                        assert(false);
                    }
                    (FindOrCreateState::Finished, UserStoreAction::Finish(Err(String::new())))
                },
            },
            FindOrCreateState::LinkingAccount { new_id } => match event {
                UserStoreEvent::AccountUpserted(Err(e)) => (FindOrCreateState::Finished, UserStoreAction::Finish(Err(e))),
                UserStoreEvent::AccountUpserted(Ok(linked_id)) => {
                    if linked_id != new_id {
                        (FindOrCreateState::RemovingDuplicate { new_id, linked_id }, UserStoreAction::DeleteUser { id: new_id })
                    } else {
                        (FindOrCreateState::Finished, UserStoreAction::Finish(Ok(User { id: new_id })))
                    }
                },
                _ => {
                    proof {
                        assert(false);
                    }
                    (FindOrCreateState::Finished, UserStoreAction::Finish(Err(String::new())))
                },
            },
            FindOrCreateState::RemovingDuplicate { new_id, linked_id } => match event {
                UserStoreEvent::UserDeleted(Err(e)) => (FindOrCreateState::Finished, UserStoreAction::Finish(Err(e))),
                UserStoreEvent::UserDeleted(Ok(())) => {
                    (FindOrCreateState::Finished, UserStoreAction::Finish(Ok(User { id: linked_id })))
                },
                _ => {
                    proof {
                        assert(false);
                    }
                    (FindOrCreateState::Finished, UserStoreAction::Finish(Err(String::new())))
                },
            },
            FindOrCreateState::UpdatingAccount => match event {
                UserStoreEvent::AccountUpdated(Err(e)) => (FindOrCreateState::Finished, UserStoreAction::Finish(Err(e))),
                UserStoreEvent::AccountUpdated(Ok(user_id)) => {
                    (FindOrCreateState::LoadingUser, UserStoreAction::LoadUser { id: user_id })
                },
                _ => {
                    proof {
                        assert(false);
                    }
                    (FindOrCreateState::Finished, UserStoreAction::Finish(Err(String::new())))
                },
            },
            FindOrCreateState::LoadingUser => match event {
                UserStoreEvent::UserLoaded(Err(e)) => (FindOrCreateState::Finished, UserStoreAction::Finish(Err(e))),
                UserStoreEvent::UserLoaded(Ok(user)) => (FindOrCreateState::Finished, UserStoreAction::Finish(Ok(user))),
                _ => {
                    proof {
                        assert(false);
                    }
                    (FindOrCreateState::Finished, UserStoreAction::Finish(Err(String::new())))
                },
            },
            FindOrCreateState::Finished => {
                proof {
                    assert(false);
                }
                (FindOrCreateState::Finished, UserStoreAction::Finish(Err(String::new())))
            },
        }
    }
}

/// Every failure the database reports ends the find-or-create with that failure.
pub proof fn lemma_failure_finishes(
    state: FindOrCreateState,
    event: UserStoreEvent,
    next: (FindOrCreateState, UserStoreAction),
    e: String,
)
    requires
        user_step(state, event, next),
        event_error(event) == Some(e),
    ensures
        next.0 is Finished,
        next.1 == UserStoreAction::Finish(Err(e)),
{
}

/// A GitHub account that is already linked is never linked anew: no user is
/// created for it; its user is the one the account is linked to.
pub proof fn lemma_found_account_is_not_recreated(
    user: GitHubUser,
    found: GitHubUserInfo,
    next: (FindOrCreateState, UserStoreAction),
)
    requires
        user_step((FindOrCreateState::Looking { user }), UserStoreEvent::AccountFound(Ok(Some(found))), next),
    ensures
        (next.0 is UpdatingAccount),
        !(next.1 is InsertUser) && !(next.1 is UpsertGitHubAccount),
{
}

/// After an account is linked, the user that the find-or-create ends with is
/// the one the account is linked to; a user created in vain (because another
/// transaction linked the account first) is deleted before that.
pub proof fn lemma_result_is_linked_user(
    new_id: u128,
    linked_id: u128,
    after_link: (FindOrCreateState, UserStoreAction),
    after_delete: (FindOrCreateState, UserStoreAction),
)
    requires
        user_step((FindOrCreateState::LinkingAccount { new_id }), UserStoreEvent::AccountUpserted(Ok(linked_id)), after_link),
        after_link.0 is RemovingDuplicate ==> user_step(after_link.0, UserStoreEvent::UserDeleted(Ok(())), after_delete),
    ensures
        linked_id == new_id ==> after_link.1 == UserStoreAction::Finish(Ok((User { id: linked_id }))),
        linked_id != new_id ==> after_link.1 == (UserStoreAction::DeleteUser { id: new_id })
            && after_delete.1 == UserStoreAction::Finish(Ok((User { id: linked_id }))),
{
}

/// A new user is created only for an account that was not found, and the
/// account is then linked to exactly that user.
pub proof fn lemma_new_user_is_linked(
    user: GitHubUser,
    after_lookup: (FindOrCreateState, UserStoreAction),
    after_insert: (FindOrCreateState, UserStoreAction),
)
    requires
        user_step((FindOrCreateState::Looking { user }), UserStoreEvent::AccountFound(Ok(None)), after_lookup),
        user_step(after_lookup.0, UserStoreEvent::UserInserted(Ok(())), after_insert),
    ensures
        (after_lookup.1 matches UserStoreAction::InsertUser { user: created }
            && after_insert.1 matches UserStoreAction::UpsertGitHubAccount { info }
            && links(info, user, created.id)),
{
}

/// The state that the `i`-th answer of a run is given in.
pub open spec fn user_state_before(init: FindOrCreateState, steps: Seq<(FindOrCreateState, UserStoreAction)>, i: int) -> FindOrCreateState {
    if i == 0 { init } else { steps[i - 1].0 }
}

/// A run of the find-or-create from `init`: `steps[i]` is what `events[i]`
/// led to from the state before it.
pub open spec fn user_run(
    init: FindOrCreateState,
    events: Seq<UserStoreEvent>,
    steps: Seq<(FindOrCreateState, UserStoreAction)>,
) -> bool {
    &&& steps.len() == events.len()
    &&& forall|i: int| 0 <= i < events.len() ==> #[trigger] user_step(user_state_before(init, steps, i), events[i], steps[i])
}

/// A find-or-create that succeeds ends in one of three ways: a new user was
/// created and the account linked to it; a new user was created, but the
/// account was found linked to another user, which is the result, and the new
/// user was deleted; or the account existed, and the user it is linked to was
/// loaded and is the result.
pub proof fn lemma_successful_run(
    user: GitHubUser,
    events: Seq<UserStoreEvent>,
    steps: Seq<(FindOrCreateState, UserStoreAction)>,
    result: User,
)
    requires
        user_run((FindOrCreateState::Looking { user }), events, steps),
        steps.len() > 0,
        steps.last().1 == UserStoreAction::Finish(Ok(result)),
    ensures
        (steps.len() == 3 && steps[0].1 == (UserStoreAction::InsertUser { user: result })
            && events[2] == UserStoreEvent::AccountUpserted(Ok(result.id)))
        || (steps.len() == 4 && events[2] == UserStoreEvent::AccountUpserted(Ok(result.id))
            && (steps[0].1 matches UserStoreAction::InsertUser { user: created }
            && created.id != result.id && steps[2].1 == (UserStoreAction::DeleteUser { id: created.id })))
        || (steps.len() == 3 && (events[0] matches UserStoreEvent::AccountFound(Ok(Some(_))))
            && events[2] == UserStoreEvent::UserLoaded(Ok(result))),
{
    let init = FindOrCreateState::Looking { user };
    let n = steps.len() as int;
    assert(user_step(user_state_before(init, steps, 0), events[0], steps[0]));
    if n > 1 {
        assert(user_step(user_state_before(init, steps, 1), events[1], steps[1]));
    }
    if n > 2 {
        assert(user_step(user_state_before(init, steps, 2), events[2], steps[2]));
    }
    if n > 3 {
        assert(user_step(user_state_before(init, steps, 3), events[3], steps[3]));
    }
    if n > 4 {
        assert(user_step(user_state_before(init, steps, 4), events[4], steps[4]));
    }
}


/// Whether links `later` keep every link of `earlier`: links are only ever
/// added (an account that is linked again keeps its user), never removed or
/// changed.
pub open spec fn links_kept(earlier: Map<i32, u128>, later: Map<i32, u128>) -> bool {
    forall|g: i32| #[trigger] earlier.contains_key(g) ==> later.contains_key(g) && later[g] == earlier[g]
}

/// How a database whose links are `before` answers `action` with `event` when
/// it succeeds, and what its links are after: a lookup finds an account exactly
/// when its GitHub id is linked; an upsert links an unlinked account to the
/// record's user and otherwise keeps the existing link, and either way answers
/// the user the account is now linked to; an update of an account answers the
/// user it is linked to (and fails for an unlinked one); loading a user answers
/// that user; inserting and deleting users leaves the links alone.
pub open spec fn db_answers(
    before: Map<i32, u128>,
    action: UserStoreAction,
    event: UserStoreEvent,
    after: Map<i32, u128>,
) -> bool {
    match action {
        UserStoreAction::FindGitHubAccount { github_id } => after == before
            && (event matches UserStoreEvent::AccountFound(Ok(found))
                && (found is Some <==> before.contains_key(github_id))),
        UserStoreAction::InsertUser { .. } => after == before && event == UserStoreEvent::UserInserted(Ok(())),
        UserStoreAction::UpsertGitHubAccount { info } => event matches UserStoreEvent::AccountUpserted(Ok(id))
            && if before.contains_key(info.id) {
                after == before && id == before[info.id]
            } else {
                after == before.insert(info.id, info.user_id) && id == info.user_id
            },
        UserStoreAction::DeleteUser { .. } => after == before && event == UserStoreEvent::UserDeleted(Ok(())),
        UserStoreAction::UpdateGitHubAccount { github_id, .. } => after == before
            && (event matches UserStoreEvent::AccountUpdated(r)
                && (before.contains_key(github_id) ==> r == Ok::<u128, String>(before[github_id]))
                && (!before.contains_key(github_id) ==> r is Err)),
        UserStoreAction::LoadUser { id } => after == before
            && (event matches UserStoreEvent::UserLoaded(r) && (r matches Ok(u) ==> u.id == id)),
        UserStoreAction::Finish(_) => false,
    }
}

/// The action that the `i`-th answer of a run from `Looking { user }` answers.
pub open spec fn action_before(user: GitHubUser, steps: Seq<(FindOrCreateState, UserStoreAction)>, i: int) -> UserStoreAction {
    if i == 0 {
        UserStoreAction::FindGitHubAccount { github_id: user.id }
    } else {
        steps[i - 1].1
    }
}

/// Whether the `i`-th answer of a run is what the database gave, with links
/// `links[i].0` before and `links[i].1` after that action.
pub open spec fn answered_by_db(
    user: GitHubUser,
    events: Seq<UserStoreEvent>,
    steps: Seq<(FindOrCreateState, UserStoreAction)>,
    links: Seq<(Map<i32, u128>, Map<i32, u128>)>,
    i: int,
) -> bool {
    db_answers(links[i].0, action_before(user, steps, i), events[i], links[i].1)
}

/// Whether, between the `(i-1)`-th and the `i`-th action of a run, the links
/// were only added to (by other transactions running at the same time).
pub open spec fn kept_between(links: Seq<(Map<i32, u128>, Map<i32, u128>)>, i: int) -> bool {
    links_kept(links[i - 1].1, links[i].0)
}

/// A successful run of the find-or-create for `user` that ended with `result`,
/// against a database whose links were `links[i]` around its `i`-th action,
/// and which other transactions may have added links to in between.
pub open spec fn db_run(
    user: GitHubUser,
    events: Seq<UserStoreEvent>,
    steps: Seq<(FindOrCreateState, UserStoreAction)>,
    links: Seq<(Map<i32, u128>, Map<i32, u128>)>,
    result: User,
) -> bool {
    &&& user_run((FindOrCreateState::Looking { user }), events, steps)
    &&& steps.len() > 0
    &&& steps.last().1 == UserStoreAction::Finish(Ok(result))
    &&& links.len() == events.len()
    &&& forall|i: int| 0 <= i < events.len() ==> #[trigger] answered_by_db(user, events, steps, links, i)
    &&& forall|i: int| 1 <= i < events.len() ==> #[trigger] kept_between(links, i)
}

/// A successful find-or-create ends with the user that the GitHub account is
/// linked to when it ends. If the account was linked already when it started,
/// it creates and deletes no user and adds no link.
pub proof fn lemma_run_ends_with_linked_user(
    user: GitHubUser,
    events: Seq<UserStoreEvent>,
    steps: Seq<(FindOrCreateState, UserStoreAction)>,
    links: Seq<(Map<i32, u128>, Map<i32, u128>)>,
    result: User,
)
    requires
        db_run(user, events, steps, links, result),
    ensures
        links.last().1.contains_key(user.id),
        links.last().1[user.id] == result.id,
        links[0].0.contains_key(user.id) ==> forall|i: int| 0 <= i < steps.len()
            ==> !(#[trigger] steps[i].1 is InsertUser) && !(steps[i].1 is DeleteUser) && links[i].1 == links[i].0,
{
    let init = FindOrCreateState::Looking { user };
    let n = steps.len() as int;
    let g = user.id;
    lemma_successful_run(user, events, steps, result);
    assert(user_step(user_state_before(init, steps, 0), events[0], steps[0]));
    assert(answered_by_db(user, events, steps, links, 0));
    assert(user_step(user_state_before(init, steps, 1), events[1], steps[1]));
    assert(answered_by_db(user, events, steps, links, 1));
    assert(kept_between(links, 1));
    assert(user_step(user_state_before(init, steps, 2), events[2], steps[2]));
    assert(answered_by_db(user, events, steps, links, 2));
    assert(kept_between(links, 2));
    if events[0] matches UserStoreEvent::AccountFound(Ok(Some(_))) {
        assert(links[0].0.contains_key(g));
        assert(links[1].0.contains_key(g));
        assert(links[2].0.contains_key(g) && links[2].0[g] == links[1].0[g]);
    } else {
        assert(!links[0].0.contains_key(g));
        if n == 4 {
            assert(user_step(user_state_before(init, steps, 3), events[3], steps[3]));
            assert(answered_by_db(user, events, steps, links, 3));
            assert(kept_between(links, 3));
            assert(links[3].0.contains_key(g));
        }
    }
}

/// Two find-or-creates of the same GitHub account that run at the same time
/// on one database, and both succeed, end with the same user: the one that the
/// account is linked to afterwards (`last`, which keeps the links that each of
/// them saw at its end). A run that created a user in vain, because the other
/// linked the account first, deleted that user.
pub proof fn lemma_concurrent_runs_agree(
    user_a: GitHubUser,
    events_a: Seq<UserStoreEvent>,
    steps_a: Seq<(FindOrCreateState, UserStoreAction)>,
    links_a: Seq<(Map<i32, u128>, Map<i32, u128>)>,
    result_a: User,
    user_b: GitHubUser,
    events_b: Seq<UserStoreEvent>,
    steps_b: Seq<(FindOrCreateState, UserStoreAction)>,
    links_b: Seq<(Map<i32, u128>, Map<i32, u128>)>,
    result_b: User,
    last: Map<i32, u128>,
)
    requires
        user_a.id == user_b.id,
        db_run(user_a, events_a, steps_a, links_a, result_a),
        db_run(user_b, events_b, steps_b, links_b, result_b),
        links_kept(links_a.last().1, last),
        links_kept(links_b.last().1, last),
    ensures
        result_a.id == result_b.id,
        last.contains_key(user_a.id) && last[user_a.id] == result_a.id,
        steps_a[0].1 matches UserStoreAction::InsertUser { user: created }
            ==> (created.id != result_a.id ==> steps_a[2].1 == (UserStoreAction::DeleteUser { id: created.id })),
        steps_b[0].1 matches UserStoreAction::InsertUser { user: created }
            ==> (created.id != result_b.id ==> steps_b[2].1 == (UserStoreAction::DeleteUser { id: created.id })),
{
    lemma_run_ends_with_linked_user(user_a, events_a, steps_a, links_a, result_a);
    lemma_run_ends_with_linked_user(user_b, events_b, steps_b, links_b, result_b);
    lemma_successful_run(user_a, events_a, steps_a, result_a);
    lemma_successful_run(user_b, events_b, steps_b, result_b);
    assert(links_a.last().1.contains_key(user_a.id));
    assert(links_b.last().1.contains_key(user_b.id));
    assert(user_step(user_state_before((FindOrCreateState::Looking { user: user_a }), steps_a, 0), events_a[0], steps_a[0]));
    assert(user_step(user_state_before((FindOrCreateState::Looking { user: user_b }), steps_b, 0), events_b[0], steps_b[0]));
}

/// A find-or-create of a GitHub account that runs after one that succeeded
/// (with other transactions only adding links in between) ends with the same
/// user, creates and deletes no user, and adds no link; the details it is
/// given may differ, only the GitHub id matters.
pub proof fn lemma_second_run_finds_first_user(
    first: GitHubUser,
    events_1: Seq<UserStoreEvent>,
    steps_1: Seq<(FindOrCreateState, UserStoreAction)>,
    links_1: Seq<(Map<i32, u128>, Map<i32, u128>)>,
    result_1: User,
    second: GitHubUser,
    events_2: Seq<UserStoreEvent>,
    steps_2: Seq<(FindOrCreateState, UserStoreAction)>,
    links_2: Seq<(Map<i32, u128>, Map<i32, u128>)>,
    result_2: User,
)
    requires
        first.id == second.id,
        db_run(first, events_1, steps_1, links_1, result_1),
        db_run(second, events_2, steps_2, links_2, result_2),
        links_kept(links_1.last().1, links_2[0].0),
    ensures
        result_2.id == result_1.id,
        forall|i: int| 0 <= i < steps_2.len()
            ==> !(#[trigger] steps_2[i].1 is InsertUser) && !(steps_2[i].1 is DeleteUser) && links_2[i].1 == links_2[i].0,
{
    lemma_run_ends_with_linked_user(first, events_1, steps_1, links_1, result_1);
    assert(links_1.last().1.contains_key(first.id));
    assert(links_2[0].0.contains_key(second.id));
    lemma_run_ends_with_linked_user(second, events_2, steps_2, links_2, result_2);
    let n = links_2.len() as int;
    assert(links_kept(links_2[0].0, links_2[n - 1].1)) by {
        assert forall|k: int| 0 <= k < n implies links_kept(links_2[0].0, #[trigger] links_2[k].1) by {
            lemma_links_kept_along(links_2, events_2, second, steps_2, result_2, k);
        }
    }
}

/// Along a run, the links are only added to: from before its first action to
/// after its `k`-th.
proof fn lemma_links_kept_along(
    links: Seq<(Map<i32, u128>, Map<i32, u128>)>,
    events: Seq<UserStoreEvent>,
    user: GitHubUser,
    steps: Seq<(FindOrCreateState, UserStoreAction)>,
    result: User,
    k: int,
)
    requires
        db_run(user, events, steps, links, result),
        0 <= k < links.len(),
    ensures
        links_kept(links[0].0, links[k].1),
    decreases k,
{
    assert(answered_by_db(user, events, steps, links, k));
    assert(links_kept(links[k].0, links[k].1)) by {
        lemma_db_answer_keeps_links(links[k].0, action_before(user, steps, k), events[k], links[k].1);
    }
    if k > 0 {
        lemma_links_kept_along(links, events, user, steps, result, k - 1);
        assert(kept_between(links, k));
    }
}

/// Every answer of the database keeps the links it had.
proof fn lemma_db_answer_keeps_links(before: Map<i32, u128>, action: UserStoreAction, event: UserStoreEvent, after: Map<i32, u128>)
    requires
        db_answers(before, action, event, after),
    ensures
        links_kept(before, after),
{
}

/// When a GitHub account that was not found gets a new user, the account
/// record that is linked carries exactly the GitHub user's id, login, name,
/// email and avatar url, and the new user's id.
pub proof fn lemma_new_account_carries_github_details(
    user: GitHubUser,
    new_id: u128,
    next: (FindOrCreateState, UserStoreAction),
)
    requires
        user_step((FindOrCreateState::CreatingUser { user, new_id }), UserStoreEvent::UserInserted(Ok(())), next),
    ensures
        next.1 matches UserStoreAction::UpsertGitHubAccount { info } && info.id == user.id && info.login == user.login
            && info.name == user.name && info.email == user.email && info.avatar_url == user.avatar_url
            && info.user_id == new_id,
{
}

/// When a GitHub account is found, its record is refreshed with exactly the
/// GitHub user's login, name, email and avatar url, by its GitHub id.
pub proof fn lemma_found_account_is_refreshed(
    user: GitHubUser,
    found: GitHubUserInfo,
    next: (FindOrCreateState, UserStoreAction),
)
    requires
        user_step((FindOrCreateState::Looking { user }), UserStoreEvent::AccountFound(Ok(Some(found))), next),
    ensures
        next.1 matches UserStoreAction::UpdateGitHubAccount { github_id, update } && github_id == user.id
            && update.login == user.login && update.name == user.name && update.email == user.email
            && update.avatar_url == user.avatar_url,
{
}

} // verus!

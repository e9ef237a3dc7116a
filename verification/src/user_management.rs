//! Logging users in through GitHub: starting a login (checking where it
//! will return to and starting an OAuth authorization), and finishing it
//! once GitHub has sent the user back, as a sequence of steps whose
//! outside work (database, GitHub) the caller performs.

use vstd::prelude::*;
use crate::error_response::Errors;
use crate::frontend_url::FrontendUrl;
use crate::github_client_info::{
    authorization_shape, oauth_authorization_url, GitHubClientInfo, GitHubUser, LoginAuthorization,
};
use crate::ids::is_uuid_v4;
use crate::models::{GitHubLoginSessionInformation, NewGitHubLoginSessionInformation, User};
use crate::redirect::Redirect;
use crate::return_url::{
    append_query_pair, is_url, is_valid_return_url, return_url_check, try_is_valid_return_url, url_append_pair_result,
    url_parse_result,
};
use crate::session::Session;

verus! {

/// The message a return url that belongs elsewhere is refused with.
pub open spec fn invalid_return_url_message() -> Seq<char> {
    "The provided return url is not a valid redirect url"@
}

/// What starting a login that should return to `return_url` answers, for the
/// frontend at `frontend_url`: the return url must parse (else `400` with the
/// parse error) and point to the frontend (else `400`); then an OAuth
/// authorization is started for `github_info`.
pub open spec fn start_login_outcome(
    frontend_url: Seq<char>,
    github_info: GitHubClientInfo,
    return_url: Seq<char>,
    res: Result<LoginAuthorization, Errors>,
) -> bool {
    match return_url_check(frontend_url, return_url) {
        Err(e) => res matches Err(Errors::BadRequest(m)) && m@ == e,
        Ok(false) => res matches Err(Errors::BadRequest(m)) && m@ == invalid_return_url_message(),
        Ok(true) => res matches Ok(a) && authorization_shape(a, github_info.auth_url_view())
            && a.auth_url@ == oauth_authorization_url(
                github_info.auth_url_view(),
                github_info.client_id_view(),
                github_info.redirect_url_view(),
                a.csrf_token@,
                a.pkce_verifier@,
            ),
    }
}

/// Starts a GitHub login that should return to `return_url` (see
/// `start_login_outcome`); the caller stores the login (`start_login_record`)
/// before redirecting. The frontend url must be a url wherever the return url
/// parses.
pub fn start_login(
    frontend_url: &FrontendUrl,
    github_info: &GitHubClientInfo,
    return_url: &str,
) -> (res: Result<LoginAuthorization, Errors>)
    requires
        is_url(return_url@) ==> is_url(frontend_url.view_url()),
    ensures
        start_login_outcome(frontend_url.view_url(), *github_info, return_url@, res),
{
    let valid = match is_valid_return_url(frontend_url.value(), return_url) {
        Ok(v) => v,
        Err(e) => return Err(Errors::BadRequest(e)),
    };
    if !valid {
        return Err(Errors::BadRequest(String::from_str("The provided return url is not a valid redirect url")));
    }
    Ok(github_info.authorize())
}

/// Starts a login where nothing is known of the configured frontend url:
/// `None` when the return url parses but the frontend url does not (a
/// misconfigured server), otherwise what `start_login` answers.
pub fn try_start_login(
    frontend_url: &FrontendUrl,
    github_info: &GitHubClientInfo,
    return_url: &str,
) -> (res: Option<Result<LoginAuthorization, Errors>>)
    ensures
        res is None <==> is_url(return_url@) && !is_url(frontend_url.view_url()),
        res matches Some(r) ==> start_login_outcome(frontend_url.view_url(), *github_info, return_url@, r),
{
    if try_is_valid_return_url(frontend_url.value(), return_url).is_none() {
        None
    } else {
        Some(start_login(frontend_url, github_info, return_url))
    }
}

/// The login to store for `session` once an authorization was started: a new
/// record under a freshly drawn random (version 4) id, holding the session's
/// id, the authorization's csrf token and PKCE verifier, and the return url.
pub fn start_login_record<'a>(
    session: &Session,
    authorization: &'a LoginAuthorization,
    return_url: &'a str,
) -> (res: NewGitHubLoginSessionInformation<'a, 'a>)
    ensures
        res.session_id == session.id,
        res.csrf_token@ == authorization.csrf_token@,
        res.pkce_verifier@ == authorization.pkce_verifier@,
        res.return_url@ == return_url@,
        is_uuid_v4(res.id),
{
    NewGitHubLoginSessionInformation::new(
        session.id,
        authorization.csrf_token.as_str(),
        authorization.pkce_verifier.as_str(),
        return_url,
    )
}

/// Ends starting a login once the caller tried to store it: a storage
/// failure answers `500` with its message; otherwise the user is sent to
/// GitHub's authorization url.
pub fn start_login_redirect(stored: Result<(), String>, authorization: LoginAuthorization) -> (res: Result<Redirect, Errors>)
    ensures
        match stored {
            Err(e) => res matches Err(Errors::InternalError(m)) && m == e,
            Ok(()) => res matches Ok(r) && r.to == authorization.auth_url,
        },
{
    match stored {
        Err(e) => Err(Errors::InternalError(e)),
        Ok(()) => Ok(Redirect::to(authorization.auth_url)),
    }
}

/// Where finishing a GitHub login stands.
#[derive(Debug)]
pub enum LoginState {
    /// Waiting for the stored login of this session and csrf token.
    LoadingSession { code: String },
    /// Waiting for GitHub to exchange the authorization code for a token.
    ExchangingCode { session: GitHubLoginSessionInformation },
    /// Waiting for the stored login to be deleted.
    DeletingSession { session: GitHubLoginSessionInformation, access_token: String },
    /// Waiting for GitHub to describe the user.
    FetchingUser { session: GitHubLoginSessionInformation },
    /// Waiting for the system user of the GitHub account.
    FindingUser { session: GitHubLoginSessionInformation },
    /// Waiting for a token to be issued for the user.
    CreatingToken { session: GitHubLoginSessionInformation },
    /// Nothing more to do.
    Finished,
}

/// What the caller is asked to do next.
#[derive(Debug)]
pub enum LoginAction {
    /// Load the stored login of this session with this csrf token.
    LoadSession { session_id: u128, csrf_token: String },
    /// Exchange the authorization code with GitHub, with this PKCE verifier.
    ExchangeCode { code: String, pkce_verifier: String },
    /// Delete the stored login with this id.
    DeleteSession { id: u128 },
    /// Ask GitHub for the user that this access token belongs to.
    FetchGitHubUser { access_token: String },
    /// Find or create the system user of this GitHub account.
    FindOrCreateUser { github_user: GitHubUser },
    /// Issue a token for this user.
    CreateToken { user: User },
    /// The login is over; answer with this.
    Finish(Result<Redirect, Errors>),
}

/// What the last action came to.
#[derive(Debug)]
pub enum LoginEvent {
    SessionLoaded(Result<Option<GitHubLoginSessionInformation>, String>),
    /// The access token, or why the exchange failed.
    CodeExchanged(Result<String, String>),
    SessionDeleted(Result<(), String>),
    GitHubUserFetched(Result<GitHubUser, String>),
    UserFound(Result<User, String>),
    TokenCreated(Result<String, String>),
}

/// Whether an event answers the action that a state waits for.
pub open spec fn login_answers(state: LoginState, event: LoginEvent) -> bool {
    match (state, event) {
        (LoginState::LoadingSession { .. }, LoginEvent::SessionLoaded(_)) => true,
        (LoginState::ExchangingCode { .. }, LoginEvent::CodeExchanged(_)) => true,
        (LoginState::DeletingSession { .. }, LoginEvent::SessionDeleted(_)) => true,
        (LoginState::FetchingUser { .. }, LoginEvent::GitHubUserFetched(_)) => true,
        (LoginState::FindingUser { .. }, LoginEvent::UserFound(_)) => true,
        (LoginState::CreatingToken { .. }, LoginEvent::TokenCreated(_)) => true,
        _ => false,
    }
}

/// Whether an action ends the login with an internal error that carries `message`.
pub open spec fn fails_with(a: LoginAction, message: Seq<char>) -> bool {
    a matches LoginAction::Finish(Err(Errors::InternalError(m))) && m@ == message
}

/// One step of finishing a login:
/// - no stored login for the session and csrf token answers `400 Invalid csrf token`;
/// - a failed code exchange answers `500 GitHub connection failed`;
/// - every other failure answers `500` with the failure's message, a stored
///   return url that does not parse among them (with the parse error's text);
/// - otherwise the code is exchanged with the stored PKCE verifier, the stored
///   login is deleted, the GitHub user is fetched, its system user found or
///   created, a token issued for it, and the user is redirected to the stored
///   return url with the token appended as the `token` query parameter.
pub open spec fn login_step(state: LoginState, event: LoginEvent, next: (LoginState, LoginAction)) -> bool {
    let (s, a) = next;
    match (state, event) {
        (LoginState::LoadingSession { code }, LoginEvent::SessionLoaded(r)) => match r {
            Err(e) => s is Finished && fails_with(a, e@),
            Ok(None) => s is Finished
                && (a matches LoginAction::Finish(Err(Errors::BadRequest(m))) && m@ == "Invalid csrf token"@),
            Ok(Some(session)) => s == (LoginState::ExchangingCode { session })
                && (a matches LoginAction::ExchangeCode { code: c, pkce_verifier }
                    && c == code && pkce_verifier == session.pkce_verifier),
        },
        (LoginState::ExchangingCode { session }, LoginEvent::CodeExchanged(r)) => match r {
            Err(_) => s is Finished && fails_with(a, "GitHub connection failed"@),
            Ok(access_token) => s == (LoginState::DeletingSession { session, access_token })
                && a == (LoginAction::DeleteSession { id: session.id }),
        },
        (LoginState::DeletingSession { session, access_token }, LoginEvent::SessionDeleted(r)) => match r {
            Err(e) => s is Finished && fails_with(a, e@),
            Ok(()) => s == (LoginState::FetchingUser { session })
                && a == (LoginAction::FetchGitHubUser { access_token }),
        },
        (LoginState::FetchingUser { session }, LoginEvent::GitHubUserFetched(r)) => match r {
            Err(e) => s is Finished && fails_with(a, e@),
            Ok(user) => s == (LoginState::FindingUser { session }) && a == (LoginAction::FindOrCreateUser { github_user: user }),
        },
        (LoginState::FindingUser { session }, LoginEvent::UserFound(r)) => match r {
            Err(e) => s is Finished && fails_with(a, e@),
            Ok(user) => s == (LoginState::CreatingToken { session }) && a == (LoginAction::CreateToken { user }),
        },
        (LoginState::CreatingToken { session }, LoginEvent::TokenCreated(r)) => s is Finished && match r {
            Err(e) => fails_with(a, e@),
            Ok(token) => match url_parse_result(session.return_url@) {
                Err(e) => fails_with(a, e),
                Ok(_) => a matches LoginAction::Finish(Ok(redirect))
                    && url_append_pair_result(session.return_url@, "token"@, token@)
                        == Ok::<Seq<char>, Seq<char>>(redirect.to@),
            },
        },
        _ => false,
    }
}

impl LoginState {
    /// Starts finishing the login of `session` that GitHub sent back with an
    /// authorization `code` and the csrf `state`: the stored login of the session
    /// with that csrf token is loaded.
    pub fn start(session: &Session, code: String, state: String) -> (res: (LoginState, LoginAction))
        ensures
            res.0 == (LoginState::LoadingSession { code }),
            res.1 == (LoginAction::LoadSession { session_id: session.id, csrf_token: state }),
    {
        (LoginState::LoadingSession { code }, LoginAction::LoadSession { session_id: session.id, csrf_token: state })
    }

    /// Whether `event` answers the action this state waits for.
    pub fn answered_by(&self, event: &LoginEvent) -> (res: bool)
        ensures
            res == login_answers(*self, *event),
    {
        match (self, event) {
            (LoginState::LoadingSession { .. }, LoginEvent::SessionLoaded(_)) => true,
            (LoginState::ExchangingCode { .. }, LoginEvent::CodeExchanged(_)) => true,
            (LoginState::DeletingSession { .. }, LoginEvent::SessionDeleted(_)) => true,
            (LoginState::FetchingUser { .. }, LoginEvent::GitHubUserFetched(_)) => true,
            (LoginState::FindingUser { .. }, LoginEvent::UserFound(_)) => true,
            (LoginState::CreatingToken { .. }, LoginEvent::TokenCreated(_)) => true,
            _ => false,
        }
    }

    /// Takes one step; see `login_step`.
    pub fn step(self, event: LoginEvent) -> (res: (LoginState, LoginAction))
        requires
            login_answers(self, event),
        ensures
            login_step(self, event, res),
    {
        let finished = LoginState::Finished;
        match (self, event) {
            (LoginState::LoadingSession { code }, LoginEvent::SessionLoaded(r)) => match r {
                Err(e) => (finished, LoginAction::Finish(Err(Errors::InternalError(e)))),
                Ok(None) => (finished, LoginAction::Finish(Err(Errors::bad_request("Invalid csrf token")))),
                Ok(Some(session)) => {
                    let pkce_verifier = session.pkce_verifier.clone();
                    (LoginState::ExchangingCode { session }, LoginAction::ExchangeCode { code, pkce_verifier })
                },
            },
            (LoginState::ExchangingCode { session }, LoginEvent::CodeExchanged(r)) => match r {
                Err(_) => (finished, LoginAction::Finish(Err(Errors::internal_error("GitHub connection failed")))),
                Ok(access_token) => {
                    let id = session.id;
                    (LoginState::DeletingSession { session, access_token }, LoginAction::DeleteSession { id })
                },
            },
            (LoginState::DeletingSession { session, access_token }, LoginEvent::SessionDeleted(r)) => match r {
                Err(e) => (finished, LoginAction::Finish(Err(Errors::InternalError(e)))),
                Ok(()) => (LoginState::FetchingUser { session }, LoginAction::FetchGitHubUser { access_token }),
            },
            (LoginState::FetchingUser { session }, LoginEvent::GitHubUserFetched(r)) => match r {
                Err(e) => (finished, LoginAction::Finish(Err(Errors::InternalError(e)))),
                Ok(user) => (LoginState::FindingUser { session }, LoginAction::FindOrCreateUser { github_user: user }),
            },
            (LoginState::FindingUser { session }, LoginEvent::UserFound(r)) => match r {
                Err(e) => (finished, LoginAction::Finish(Err(Errors::InternalError(e)))),
                Ok(user) => (LoginState::CreatingToken { session }, LoginAction::CreateToken { user }),
            },
            (LoginState::CreatingToken { session }, LoginEvent::TokenCreated(r)) => match r {
                Err(e) => (finished, LoginAction::Finish(Err(Errors::InternalError(e)))),
                Ok(token) => match append_query_pair(session.return_url.as_str(), "token", token.as_str()) {
                    Ok(url) => (finished, LoginAction::Finish(Ok(Redirect::to(url)))),
                    Err(e) => (finished, LoginAction::Finish(Err(Errors::InternalError(e)))),
                },
            },
            _ => {
                proof {
                    assert(false);
                }
                (finished, LoginAction::Finish(Err(Errors::internal_error(""))))
            },
        }
    }
}

/// A login whose csrf state matches no stored login of the session is
/// refused with `400 Invalid csrf token`, and nothing else is done.
pub proof fn lemma_unknown_csrf_token_is_refused(code: String, next: (LoginState, LoginAction))
    requires
        login_step((LoginState::LoadingSession { code }), LoginEvent::SessionLoaded(Ok(None)), next),
    ensures
        (next.0 is Finished),
        next.1 matches LoginAction::Finish(Err(Errors::BadRequest(m))) && m@ == "Invalid csrf token"@,
{
}

/// Every failure of the outside work ends the login with an internal error.
pub proof fn lemma_failures_are_internal_errors(state: LoginState, event: LoginEvent, next: (LoginState, LoginAction))
    requires
        login_step(state, event, next),
        match event {
            LoginEvent::SessionLoaded(r) => r is Err,
            LoginEvent::CodeExchanged(r) => r is Err,
            LoginEvent::SessionDeleted(r) => r is Err,
            LoginEvent::GitHubUserFetched(r) => r is Err,
            LoginEvent::UserFound(r) => r is Err,
            LoginEvent::TokenCreated(r) => r is Err,
        },
    ensures
        (next.0 is Finished),
        next.1 matches LoginAction::Finish(Err(Errors::InternalError(_))),
{
}

/// The authorization code is exchanged only for a stored login of the
/// session, with that login's own PKCE verifier.
pub proof fn lemma_code_exchanged_with_stored_verifier(state: LoginState, event: LoginEvent, next: (LoginState, LoginAction))
    requires
        login_step(state, event, next),
        next.1 is ExchangeCode,
    ensures
        event matches LoginEvent::SessionLoaded(Ok(Some(session)))
            && next.1->pkce_verifier == session.pkce_verifier,
{
}

/// The stored login is consumed (deleted) before the user is looked up at
/// GitHub, so a login can be finished only once.
pub proof fn lemma_login_consumed_before_user_fetched(state: LoginState, event: LoginEvent, next: (LoginState, LoginAction))
    requires
        login_step(state, event, next),
        next.1 is FetchGitHubUser,
    ensures
        (state is DeletingSession),
        (event matches LoginEvent::SessionDeleted(Ok(_))),
{
}

/// A login that succeeds redirects to the return url of the stored login
/// with the issued token appended as the `token` query parameter.
pub proof fn lemma_success_redirects_to_return_url(state: LoginState, event: LoginEvent, next: (LoginState, LoginAction))
    requires
        login_step(state, event, next),
        next.1 matches LoginAction::Finish(Ok(_)),
    ensures
        state matches LoginState::CreatingToken { session }
            && event matches LoginEvent::TokenCreated(Ok(token))
            && next.1 matches LoginAction::Finish(Ok(redirect))
            && url_append_pair_result(session.return_url@, "token"@, token@) == Ok::<Seq<char>, Seq<char>>(redirect.to@),
{
}

/// A run of the login from `init`: `steps[i]` is what `events[i]` led to from
/// the state before it.
pub open spec fn login_run(init: LoginState, events: Seq<LoginEvent>, steps: Seq<(LoginState, LoginAction)>) -> bool {
    &&& steps.len() == events.len()
    &&& forall|i: int| 0 <= i < events.len() ==> #[trigger] login_step(state_before(init, steps, i), events[i], steps[i])
}

/// The state that the `i`-th event of a run is answered in.
pub open spec fn state_before(init: LoginState, steps: Seq<(LoginState, LoginAction)>, i: int) -> LoginState {
    if i == 0 { init } else { steps[i - 1].0 }
}

/// In a run from a freshly started login, a login that succeeds has had its
/// code exchanged and its stored record deleted first, in this order, and only
/// then was the GitHub user fetched: a stored login cannot be used twice.
pub proof fn lemma_success_consumed_stored_login(
    code: String,
    events: Seq<LoginEvent>,
    steps: Seq<(LoginState, LoginAction)>,
)
    requires
        login_run((LoginState::LoadingSession { code }), events, steps),
        steps.len() > 0,
        steps.last().1 matches LoginAction::Finish(Ok(_)),
    ensures
        steps.len() >= 5,
        events[steps.len() - 4] matches LoginEvent::SessionDeleted(Ok(_)),
        events[steps.len() - 5] matches LoginEvent::CodeExchanged(Ok(_)),
        events[steps.len() - 3] matches LoginEvent::GitHubUserFetched(Ok(_)),
{
    let init = LoginState::LoadingSession { code };
    let n = steps.len() as int;
    assert(login_step(state_before(init, steps, n - 1), events[n - 1], steps[n - 1]));
    assert(state_before(init, steps, n - 1) is CreatingToken);
    assert(n - 1 > 0);
    assert(login_step(state_before(init, steps, n - 2), events[n - 2], steps[n - 2]));
    assert(state_before(init, steps, n - 2) is FindingUser);
    assert(n - 2 > 0);
    assert(login_step(state_before(init, steps, n - 3), events[n - 3], steps[n - 3]));
    assert(state_before(init, steps, n - 3) is FetchingUser);
    assert(n - 3 > 0);
    assert(login_step(state_before(init, steps, n - 4), events[n - 4], steps[n - 4]));
    assert(state_before(init, steps, n - 4) is DeletingSession);
    assert(n - 4 > 0);
    assert(login_step(state_before(init, steps, n - 5), events[n - 5], steps[n - 5]));
}

} // verus!

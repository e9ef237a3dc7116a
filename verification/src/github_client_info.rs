//! The GitHub OAuth application this server logs users in with, and what
//! the GitHub API answers about the logged-in user.

use vstd::prelude::*;
use crate::config::Configuration;
use crate::return_url::{is_url, parse_url_origin, url_parse_result, OriginView};
use crate::strings::{decimal_u16, is_base64url_char};
use oauth2::{AuthUrl, ClientId, ClientSecret, CsrfToken, PkceCodeChallenge, RedirectUrl, TokenUrl};

verus! {

/// A GitHub account, as the GitHub API describes it.
#[derive(Debug)]
pub struct GitHubUser {
    pub id: i32,
    pub login: String,
    pub email: Option<String>,
    pub avatar_url: String,
    pub name: String,
}

/// An organization of a GitHub account.
#[derive(Debug)]
pub struct GitHubUserOrg {}

/// The error body that the GitHub API answers a failed request with.
#[derive(Debug)]
pub struct GitHubResponseError {
    pub message: String,
}

impl GitHubResponseError {
    /// The text the error is displayed as: its message.
    pub fn to_display_string(&self) -> (res: String)
        ensures
            res@ == self.message@,
    {
        self.message.clone()
    }
}

/// What the GitHub API answered to a request for the current user: a
/// successful status with the body read as a user (or why it could not be),
/// or a failed status with the body read as an error (or why it could not be).
#[derive(Debug)]
pub enum GitHubUserReply {
    Success(Result<GitHubUser, String>),
    Failure(Result<GitHubResponseError, String>),
}

/// The authorization endpoint of GitHub's OAuth service.
pub open spec fn github_auth_url() -> Seq<char> {
    "https://github.com/login/oauth/authorize"@
}

/// The token endpoint of GitHub's OAuth service.
pub open spec fn github_token_url() -> Seq<char> {
    "https://github.com/login/oauth/access_token"@
}

/// The url GitHub sends the user back to after authorizing: `<hostname>:<port>/gh-oauth-callback`.
pub open spec fn oauth_redirect_url_of(hostname: Seq<char>, port: u16) -> Seq<char> {
    hostname + ":"@ + crate::strings::decimal(port as nat) + "/gh-oauth-callback"@
}

/// A started GitHub authorization: the url to send the user to, and the csrf
/// token and pkce verifier that the authorization was started with.
#[derive(Debug)]
pub struct LoginAuthorization {
    pub auth_url: String,
    pub csrf_token: String,
    pub pkce_verifier: String,
}

/// The authorization url that `oauth2`'s `AuthorizationRequest::url` renders
/// for the authorization endpoint `auth_url`, the client `client_id`, the
/// redirect url `redirect_url`, the csrf token `csrf_token` and the PKCE
/// verifier `pkce_verifier`: the endpoint with the query pairs
/// `response_type=code`, `client_id`, `state` (the csrf token), `code_challenge`
/// (the verifier's SHA-256 challenge), `code_challenge_method=S256` and
/// `redirect_uri` appended.
pub uninterp spec fn oauth_authorization_url(
    auth_url: Seq<char>,
    client_id: Seq<char>,
    redirect_url: Seq<char>,
    csrf_token: Seq<char>,
    pkce_verifier: Seq<char>,
) -> Seq<char>;

/// Whether a text is url-safe base64 (without padding) of the given length.
pub open spec fn is_base64url_text(s: Seq<char>, len: nat) -> bool {
    s.len() == len && forall|i: int| 0 <= i < s.len() ==> #[trigger] is_base64url_char(s[i])
}

/// What holds of every authorization started on the authorization endpoint
/// `endpoint`: its url points to the endpoint's domain, scheme and port; its
/// csrf token encodes 16 random bytes (22 characters) and its PKCE verifier 32
/// random bytes (43 characters), in url-safe base64 without padding.
pub open spec fn authorization_shape(a: LoginAuthorization, endpoint: Seq<char>) -> bool {
    &&& is_url(a.auth_url@)
    &&& url_parse_result(a.auth_url@) == url_parse_result(endpoint)
    &&& is_base64url_text(a.csrf_token@, 22)
    &&& is_base64url_text(a.pkce_verifier@, 43)
}

/// The OAuth client registration of this server with GitHub.
pub struct GitHubClientInfo {
    client_id: String,
    client_secret: String,
    auth_url: String,
    token_url: String,
    redirect_url: String,
}

impl GitHubClientInfo {
    /// Every endpoint of a registration is a url.
    #[verifier::type_invariant]
    spec fn endpoints_are_urls(self) -> bool {
        &&& is_url(self.auth_url@)
        &&& is_url(self.token_url@)
        &&& is_url(self.redirect_url@)
    }

    pub closed spec fn client_id_view(self) -> Seq<char> {
        self.client_id@
    }

    pub closed spec fn client_secret_view(self) -> Seq<char> {
        self.client_secret@
    }

    pub closed spec fn auth_url_view(self) -> Seq<char> {
        self.auth_url@
    }

    pub closed spec fn token_url_view(self) -> Seq<char> {
        self.token_url@
    }

    pub closed spec fn redirect_url_view(self) -> Seq<char> {
        self.redirect_url@
    }

    /// The redirect url for a server reachable at `hostname` and `port`.
    pub fn oauth_redirect_url(hostname: &str, port: u16) -> (res: String)
        ensures
            res@ == oauth_redirect_url_of(hostname@, port),
    {
        let mut url = String::from_str(hostname);
        url.append(":");
        let digits = decimal_u16(port);
        url.append(digits.as_str());
        url.append("/gh-oauth-callback");
        url
    }

    /// The GitHub OAuth registration described by the configuration: its
    /// client id and secret, GitHub's endpoints, and the redirect url built from
    /// the configured hostname and port. Fails with the url parser's message
    /// when an endpoint is no url.
    pub fn get_github_client_info(cfg: &Configuration) -> (res: Result<GitHubClientInfo, String>)
        ensures
            match res {
                Ok(info) => {
                    &&& info.client_id_view() == cfg.github_client_id@
                    &&& info.client_secret_view() == cfg.github_client_secret@
                    &&& info.auth_url_view() == github_auth_url()
                    &&& info.token_url_view() == github_token_url()
                    &&& info.redirect_url_view() == oauth_redirect_url_of(cfg.hostname@, cfg.port)
                },
                Err(e) => {
                    ||| url_parse_result(github_auth_url()) == Err::<OriginView, Seq<char>>(e@)
                    ||| url_parse_result(github_token_url()) == Err::<OriginView, Seq<char>>(e@)
                    ||| (is_url(github_auth_url()) && is_url(github_token_url())
                        && url_parse_result(oauth_redirect_url_of(cfg.hostname@, cfg.port))
                            == Err::<OriginView, Seq<char>>(e@))
                },
            },
    {
        let auth_url = String::from_str("https://github.com/login/oauth/authorize");
        if let Err(e) = parse_url_origin(auth_url.as_str()) {
            return Err(e);
        }
        let token_url = String::from_str("https://github.com/login/oauth/access_token");
        if let Err(e) = parse_url_origin(token_url.as_str()) {
            return Err(e);
        }
        let redirect_url = GitHubClientInfo::oauth_redirect_url(cfg.hostname.as_str(), cfg.port);
        if let Err(e) = parse_url_origin(redirect_url.as_str()) {
            return Err(e);
        }
        Ok(GitHubClientInfo {
            client_id: cfg.github_client_id.clone(),
            client_secret: cfg.github_client_secret.clone(),
            auth_url,
            token_url,
            redirect_url,
        })
    }

    pub fn client_id(&self) -> (res: &str)
        ensures
            res@ == self.client_id_view(),
    {
        self.client_id.as_str()
    }

    pub fn client_secret(&self) -> (res: &str)
        ensures
            res@ == self.client_secret_view(),
    {
        self.client_secret.as_str()
    }

    pub fn auth_url(&self) -> (res: &str)
        ensures
            res@ == self.auth_url_view(),
            is_url(res@),
    {
        proof {
            use_type_invariant(self);
        }
        self.auth_url.as_str()
    }

    pub fn token_url(&self) -> (res: &str)
        ensures
            res@ == self.token_url_view(),
            is_url(res@),
    {
        proof {
            use_type_invariant(self);
        }
        self.token_url.as_str()
    }

    pub fn redirect_url(&self) -> (res: &str)
        ensures
            res@ == self.redirect_url_view(),
            is_url(res@),
    {
        proof {
            use_type_invariant(self);
        }
        self.redirect_url.as_str()
    }

    /// Starts an authorization with `oauth2`: builds the `BasicClient` of this
    /// registration, draws a random SHA-256 PKCE challenge
    /// (`PkceCodeChallenge::new_random_sha256`) and a random csrf token
    /// (`CsrfToken::new_random`), and renders the authorization url. The crate's
    /// url types are made with `Url::parse`, which succeeds on every endpoint of
    /// a registration, so an authorization is always returned. Its values are
    /// random; what holds of every outcome, as the crate's source shows: the csrf
    /// token is 16 random bytes and the verifier 32 random bytes, each encoded
    /// as url-safe base64 without padding (22 and 43 characters); the
    /// authorization url is the registration's authorization url with query
    /// pairs appended (`AuthorizationRequest::url`), so it parses again with the
    /// same domain, scheme and port. Given the drawn csrf token and verifier,
    /// the url is a function of the registration's endpoint, client id and
    /// redirect url and of those two values, named by `oauth_authorization_url`.
    #[verifier::external_body]
    fn oauth_authorize(&self) -> (res: Option<LoginAuthorization>)
        requires
            is_url(self.auth_url@),
            is_url(self.token_url@),
            is_url(self.redirect_url@),
        ensures
            res is Some,
            res matches Some(a) ==> authorization_shape(a, self.auth_url@),
            res matches Some(a) ==> a.auth_url@ == oauth_authorization_url(
                self.auth_url@,
                self.client_id@,
                self.redirect_url@,
                a.csrf_token@,
                a.pkce_verifier@,
            ),
    {
        let client = oauth2::basic::BasicClient::new(
            ClientId::new(self.client_id.clone()),
            Some(ClientSecret::new(self.client_secret.clone())),
            AuthUrl::new(self.auth_url.clone()).ok()?,
            Some(TokenUrl::new(self.token_url.clone()).ok()?),
        ).set_redirect_uri(RedirectUrl::new(self.redirect_url.clone()).ok()?);
        let (challenge, verifier) = PkceCodeChallenge::new_random_sha256();
        let (url, csrf) = client.authorize_url(CsrfToken::new_random).set_pkce_challenge(challenge).url();
        let (csrf_token, pkce_verifier) = (csrf.secret().clone(), verifier.secret().clone());
        Some(LoginAuthorization { auth_url: url.to_string(), csrf_token, pkce_verifier })
    }

    /// Starts a GitHub authorization for this registration (random csrf token
    /// and PKCE challenge): the user is sent to an url on the registration's
    /// authorization endpoint (same domain, scheme and port); the csrf token
    /// and PKCE verifier are url-safe base64 texts of 22 and 43 characters, and
    /// the url carries this registration's client id and redirect url, the csrf
    /// token as its state and the verifier's challenge.
    pub fn authorize(&self) -> (res: LoginAuthorization)
        ensures
            authorization_shape(res, self.auth_url_view()),
            res.auth_url@ == oauth_authorization_url(
                self.auth_url_view(),
                self.client_id_view(),
                self.redirect_url_view(),
                res.csrf_token@,
                res.pkce_verifier@,
            ),
    {
        proof {
            use_type_invariant(self);
        }
        match self.oauth_authorize() {
            Some(a) => a,
            None => {
                proof {
                    assert(false);
                }
                LoginAuthorization {
                    auth_url: String::new(),
                    csrf_token: String::new(),
                    pkce_verifier: String::new(),
                }
            },
        }
    }

    /// The organizations of the current user as answered by the GitHub API:
    /// the body is only read (and logged), and no organization is taken from
    /// it; a failed request or unreadable body is reported.
    pub fn user_orgs_from_reply(body: Result<String, String>) -> (res: Result<Vec<GitHubUserOrg>, String>)
        ensures
            match body {
                Ok(_) => res matches Ok(orgs) && orgs@.len() == 0,
                Err(e) => res == Err::<Vec<GitHubUserOrg>, String>(e),
            },
    {
        match body {
            Ok(_) => Ok(Vec::new()),
            Err(e) => Err(e),
        }
    }

    /// The current user as answered by the GitHub API: the user on success,
    /// otherwise the error's message, or the reason the body could not be read.
    pub fn user_info_from_reply(reply: GitHubUserReply) -> (res: Result<GitHubUser, String>)
        ensures
            match reply {
                GitHubUserReply::Success(r) => res == r,
                GitHubUserReply::Failure(Ok(e)) => res matches Err(m) && m@ == e.message@,
                GitHubUserReply::Failure(Err(m)) => res matches Err(m2) && m2@ == m@,
            },
    {
        match reply {
            GitHubUserReply::Success(r) => r,
            GitHubUserReply::Failure(Ok(e)) => Err(e.message),
            GitHubUserReply::Failure(Err(m)) => Err(m),
        }
    }
}

} // verus!

//! JSON web tokens: issuing a token for a user, and reading the user back
//! out of an `Authorization: Bearer <token>` header.

use vstd::prelude::*;
use crate::error_response::Errors;
use crate::ids::{uuid_hyphenated, uuid_parse, uuid_parse_result, uuid_to_string};
use crate::models::User;
use crate::strings::{
    after_first, before_first, find_char, is_base64url_char, lemma_first_index_of_unique, opt_str_view,
};

verus! {

/// How long an issued token stays valid: 31 days, in seconds.
pub const TOKEN_LIFETIME_SECS: u64 = 2678400;

/// The claims a token carries: the user's id as text, and the expiry time
/// in seconds since the Unix epoch.
#[derive(Debug)]
pub struct Claims {
    pub sub: String,
    pub exp: u64,
}

/// An authenticated user, as read from a valid token.
#[derive(Debug)]
pub struct Jwt {
    pub user_id: u128,
}

/// The HS256 token that `jsonwebtoken::encode` issues, with the default header,
/// for the claims `{"sub": sub, "exp": exp}` signed with `secret`.
pub uninterp spec fn jwt_hs256_token(sub: Seq<char>, exp: u64, secret: Seq<u8>) -> Seq<char>;

/// Whether a text has the form of a compact token as `jsonwebtoken::encode`
/// writes it: url-safe base64 parts (without padding) joined by dots, so in
/// particular without spaces.
pub open spec fn is_token_text(t: Seq<char>) -> bool {
    forall|i: int| 0 <= i < t.len() ==> #[trigger] is_base64url_char(t[i]) || t[i] == '.'
}

/// Encodes claims with `jsonwebtoken::encode` under the default (HS256) header
/// and an HMAC key made from `secret`. With an HMAC key and the HS256 header
/// the crate's `encode` always succeeds (its algorithm family check passes and
/// HMAC signing cannot fail); the token is named by `jwt_hs256_token`. It is
/// the header, the claims and the signature, each url-safe base64 without
/// padding (`b64_encode`), joined by dots.
#[verifier::external_body]
fn encode_claims(claims: &Claims, secret: &[u8]) -> (res: Result<String, String>)
    ensures
        res is Ok,
        res matches Ok(t) ==> t@ == jwt_hs256_token(claims.sub@, claims.exp, secret@),
        res matches Ok(t) ==> is_token_text(t@),
{
    let mut map = serde_json::Map::new();
    map.insert("sub".to_string(), serde_json::Value::from(claims.sub.as_str()));
    map.insert("exp".to_string(), serde_json::Value::from(claims.exp));
    let key = jsonwebtoken::EncodingKey::from_secret(secret);
    match jsonwebtoken::encode(&jsonwebtoken::Header::default(), &map, &key) {
        Ok(t) => Ok(t),
        Err(e) => Err(e.to_string()),
    }
}

/// The `sub` and `exp` claims that `jsonwebtoken::decode` reads from `token`
/// under the default validation (HS256) with an HMAC key made from `secret`,
/// leaving aside only whether `exp` has passed: `None` when the token is refused
/// for any other reason (format, algorithm, signature, a missing `exp`) or its
/// `sub` is no string or its `exp` no unsigned number.
pub uninterp spec fn jwt_hs256_claims(token: Seq<char>, secret: Seq<u8>) -> Option<(Seq<char>, u64)>;

/// Decodes a token with `jsonwebtoken::decode` under the default validation
/// (HS256, an `exp` claim that must not have passed) and an HMAC key made from
/// `secret`, and reads its `sub` (a string) and `exp` (an unsigned number)
/// claims. Apart from the expiry check, which reads the clock, the outcome is a
/// function of the token and the secret, named by `jwt_hs256_claims`: a token
/// refused there is refused here, and claims read here are those. A token that
/// `jsonwebtoken::encode` issued under the same secret (`jwt_hs256_token`)
/// passes the signature and format checks and carries the claims it was made
/// with (serde_json reads back the string and number it wrote), so if it is
/// not refused as expired its claims come back.
#[verifier::external_body]
fn decode_claims(token: &str, secret: &[u8]) -> (res: Option<Claims>)
    ensures
        res matches Some(c) ==> jwt_hs256_claims(token@, secret@) == Some((c.sub@, c.exp)),
        jwt_hs256_claims(token@, secret@) is None ==> res is None,
        forall|sub: Seq<char>, exp: u64| #[trigger] jwt_hs256_token(sub, exp, secret@) == token@
            ==> (res is None || (res matches Some(c) && c.sub@ == sub && c.exp == exp)),
{
    let key = jsonwebtoken::DecodingKey::from_secret(secret);
    let validation = jsonwebtoken::Validation::default();
    match jsonwebtoken::decode::<serde_json::Map<String, serde_json::Value>>(token, &key, &validation) {
        Ok(data) => match (data.claims.get("sub"), data.claims.get("exp").and_then(|e| e.as_u64())) {
            (Some(serde_json::Value::String(sub)), Some(exp)) => Some(Claims { sub: sub.clone(), exp }),
            _ => None,
        },
        Err(_) => None,
    }
}

/// The current time in seconds since the Unix epoch, from
/// `jsonwebtoken::get_current_timestamp`. Nothing is promised of it.
#[verifier::external_body]
fn current_timestamp() -> (res: u64) {
    jsonwebtoken::get_current_timestamp()
}

/// The bearer token in an `Authorization` header: the header is split at
/// spaces; it must have a second part, and its first part must be `Bearer`;
/// the token is the second part.
pub open spec fn bearer_token_of(header: Seq<char>) -> Option<Seq<char>> {
    match after_first(header, ' ') {
        None => None,
        Some(rest) => if before_first(header, ' ') == "Bearer"@ {
            Some(before_first(rest, ' '))
        } else {
            None
        },
    }
}

/// Reads the token out of an `Authorization` header; see `bearer_token_of`.
pub fn bearer_token(header: &str) -> (res: Option<String>)
    ensures
        opt_str_view(res) == bearer_token_of(header@),
{
    let n = header.unicode_len();
    let space = find_char(header, ' ');
    if space >= n {
        return None;
    }
    let scheme = String::from_str(header.substring_char(0, space));
    let bearer = String::from_str("Bearer");
    if !(scheme == bearer) {
        return None;
    }
    let rest = header.substring_char(space + 1, n);
    assert(rest@ == header@.skip(space + 1));
    let end = find_char(rest, ' ');
    Some(String::from_str(rest.substring_char(0, end)))
}

/// What a request guard for an authenticated user ends in.
#[derive(Debug)]
pub enum AuthOutcome {
    /// The request carries a valid token of this user.
    Success(Jwt),
    /// The request is refused with this status and error.
    Failure(u16, Errors),
    /// The request carries no bearer token; other handlers may take it.
    Forward,
}

impl Jwt {
    /// The expiry time of a token issued at `now`.
    pub open spec fn expiry(now: u64) -> int {
        now + TOKEN_LIFETIME_SECS
    }

    /// Issues a token for `user`, valid until `now` plus the token lifetime;
    /// an expiry time that does not fit in 64 bits is refused with an error.
    pub fn create_token_at(user: &User, secret: &[u8], now: u64) -> (res: Result<String, String>)
        ensures
            Jwt::expiry(now) <= u64::MAX ==> (res matches Ok(t) && t@ == jwt_hs256_token(
                uuid_hyphenated(user.id),
                Jwt::expiry(now) as u64,
                secret@,
            ) && is_token_text(t@)),
            Jwt::expiry(now) > u64::MAX ==> (res matches Err(m) && m@ == "Token expiry time overflows"@),
    {
        if now > u64::MAX - TOKEN_LIFETIME_SECS {
            return Err(String::from_str("Token expiry time overflows"));
        }
        let claims = Claims { sub: uuid_to_string(user.id), exp: now + TOKEN_LIFETIME_SECS };
        encode_claims(&claims, secret)
    }

    /// Issues a token for `user` that expires 31 days from now, by
    /// `create_token_at` with the current time.
    pub fn create_token_for_user(user: &User, secret: &[u8]) -> (res: Result<String, String>)
        ensures
            res matches Ok(t) ==> is_token_text(t@) && exists|now: u64|
                Jwt::expiry(now) <= u64::MAX
                    && #[trigger] jwt_hs256_token(uuid_hyphenated(user.id), Jwt::expiry(now) as u64, secret@) == t@,
            res matches Err(m) ==> m@ == "Token expiry time overflows"@,
    {
        let now = current_timestamp();
        let res = Jwt::create_token_at(user, secret, now);
        proof {
            if Jwt::expiry(now) <= u64::MAX {
                assert(res matches Ok(t)
                    && jwt_hs256_token(uuid_hyphenated(user.id), Jwt::expiry(now) as u64, secret@) == t@);
            }
        }
        res
    }

    /// The outcome for a request whose token decoded to `claims` (`None` when
    /// the token was refused): the user named by the `sub` claim, or
    /// `401 Unauthorized` when the token was refused or `sub` is no UUID.
    pub fn outcome_for_claims(claims: Option<Claims>) -> (res: AuthOutcome)
        ensures
            match claims {
                None => res matches AuthOutcome::Failure(401, Errors::Unauthorized),
                Some(c) => match uuid_parse_result(c.sub@) {
                    None => res matches AuthOutcome::Failure(401, Errors::Unauthorized),
                    Some(id) => res matches AuthOutcome::Success(j) && j.user_id == id,
                },
            },
            claims matches Some(c) ==> forall|u: u128| #[trigger] uuid_hyphenated(u) == c.sub@
                ==> (res matches AuthOutcome::Success(j) && j.user_id == u),
    {
        match claims {
            None => AuthOutcome::Failure(401, Errors::Unauthorized),
            Some(c) => match uuid_parse(c.sub.as_str()) {
                None => AuthOutcome::Failure(401, Errors::Unauthorized),
                Some(id) => AuthOutcome::Success(Jwt { user_id: id }),
            },
        }
    }

    /// Authenticates a request from its `Authorization` header: no header, or
    /// one without a `Bearer` token, forwards the request; a token that is not
    /// signed with `secret` (or is malformed), or whose `sub` names no UUID,
    /// answers `401 Unauthorized`; a token that is has its user authenticated,
    /// unless it has expired (which answers `401` too).
    pub fn from_request(auth_header: Option<&str>, secret: &[u8]) -> (res: AuthOutcome)
        ensures
            match auth_header {
                None => res is Forward,
                Some(h) => match bearer_token_of(h@) {
                    None => res is Forward,
                    Some(t) => match jwt_hs256_claims(t, secret@) {
                        None => res matches AuthOutcome::Failure(401, Errors::Unauthorized),
                        Some(c) => match uuid_parse_result(c.0) {
                            None => res matches AuthOutcome::Failure(401, Errors::Unauthorized),
                            Some(id) => res matches AuthOutcome::Failure(401, Errors::Unauthorized)
                                || (res matches AuthOutcome::Success(j) && j.user_id == id),
                        },
                    },
                },
            },
            auth_header matches Some(h) ==> bearer_token_of(h@) matches Some(t)
                ==> forall|u: u128, exp: u64| #[trigger] jwt_hs256_token(uuid_hyphenated(u), exp, secret@) == t
                ==> (res matches AuthOutcome::Failure(401, Errors::Unauthorized)
                    || (res matches AuthOutcome::Success(j) && j.user_id == u)),
            auth_header matches Some(h) ==> forall|u: u128, exp: u64|
                h@ == "Bearer "@ + #[trigger] jwt_hs256_token(uuid_hyphenated(u), exp, secret@)
                    && is_token_text(jwt_hs256_token(uuid_hyphenated(u), exp, secret@))
                ==> (res matches AuthOutcome::Failure(401, Errors::Unauthorized)
                    || (res matches AuthOutcome::Success(j) && j.user_id == u)),
    {
        let header = match auth_header {
            None => return AuthOutcome::Forward,
            Some(h) => h,
        };
        let token = match bearer_token(header) {
            None => {
                proof {
                    assert forall|u: u128, exp: u64|
                        header@ == "Bearer "@ + #[trigger] jwt_hs256_token(uuid_hyphenated(u), exp, secret@)
                            && is_token_text(jwt_hs256_token(uuid_hyphenated(u), exp, secret@))
                        implies false by {
                        lemma_bearer_token_of_token(jwt_hs256_token(uuid_hyphenated(u), exp, secret@));
                    }
                }
                return AuthOutcome::Forward;
            },
            Some(t) => t,
        };
        let claims = decode_claims(token.as_str(), secret);
        let ghost decoded = match claims { Some(ref c) => Some(c.sub@), None => None };
        let res = Jwt::outcome_for_claims(claims);
        proof {
            assert forall|u: u128, exp: u64| #[trigger] jwt_hs256_token(uuid_hyphenated(u), exp, secret@) == token@
                implies (res matches AuthOutcome::Failure(401, Errors::Unauthorized)
                    || (res matches AuthOutcome::Success(j) && j.user_id == u)) by {
                if decoded is Some {
                    assert(decoded->Some_0 == uuid_hyphenated(u));
                }
            }
            assert forall|u: u128, exp: u64|
                header@ == "Bearer "@ + #[trigger] jwt_hs256_token(uuid_hyphenated(u), exp, secret@)
                    && is_token_text(jwt_hs256_token(uuid_hyphenated(u), exp, secret@))
                implies (res matches AuthOutcome::Failure(401, Errors::Unauthorized)
                    || (res matches AuthOutcome::Success(j) && j.user_id == u)) by {
                lemma_bearer_token_of_token(jwt_hs256_token(uuid_hyphenated(u), exp, secret@));
            }
        }
        res
    }
}

/// The header `Bearer <t>` carries the token `t` when `t` is token text (which
/// has no spaces): an issued token is read back whole from its header.
pub proof fn lemma_bearer_token_of_token(t: Seq<char>)
    requires
        is_token_text(t),
    ensures
        bearer_token_of("Bearer "@ + t) == Some(t),
{
    reveal_strlit("Bearer ");
    reveal_strlit("Bearer");
    let h = "Bearer "@ + t;
    assert forall|j: int| 0 <= j < t.len() implies t[j] != ' ' by {
        assert(is_base64url_char(t[j]) || t[j] == '.');
    }
    lemma_first_index_of_unique(h, ' ', 6);
    lemma_first_index_of_unique(t, ' ', t.len() as int);
    assert(h.skip(7) =~= t);
    assert(h.take(6) =~= "Bearer"@);
    assert(t.take(t.len() as int) =~= t);
}

} // verus!

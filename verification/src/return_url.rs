//! Checks that a url that a login should return to belongs to the
//! configured frontend: same domain, scheme and (default) port.

use vstd::prelude::*;

verus! {

/// The parts of a url that decide where it points: its domain (none for an
/// ip address), its scheme, and its port or the scheme's default port.
pub struct UrlOrigin {
    pub domain: Option<String>,
    pub scheme: String,
    pub port: Option<u16>,
}

/// A url origin as plain values: `(domain, scheme, port)`.
pub type OriginView = (Option<Seq<char>>, Seq<char>, Option<u16>);

impl UrlOrigin {
    pub open spec fn view_parts(self) -> OriginView {
        (
            match self.domain {
                Some(d) => Some(d@),
                None => None,
            },
            self.scheme@,
            self.port,
        )
    }
}

/// What `url::Url::parse` reads from a text: the parsed url's `domain()`,
/// `scheme()` and `port_or_known_default()`, or the text of the parse error.
pub uninterp spec fn url_parse_result(s: Seq<char>) -> Result<OriginView, Seq<char>>;

/// What a url reads after `url::Url::parse`, `query_pairs_mut().append_pair`
/// and conversion back to text; `Err` holds the parse error's text.
pub uninterp spec fn url_append_pair_result(url: Seq<char>, key: Seq<char>, value: Seq<char>)
    -> Result<Seq<char>, Seq<char>>;

/// Parses a url with `url::Url::parse` and reads its domain, scheme and port
/// (or the scheme's default port). The result is named by `url_parse_result`.
#[verifier::external_body]
pub(crate) fn parse_url_origin(s: &str) -> (res: Result<UrlOrigin, String>)
    ensures
        match res {
            Ok(o) => url_parse_result(s@) == Ok::<OriginView, Seq<char>>(o.view_parts()),
            Err(e) => url_parse_result(s@) == Err::<OriginView, Seq<char>>(e@),
        },
{
    match url::Url::parse(s) {
        Ok(u) => Ok(UrlOrigin {
            domain: u.domain().map(|d| d.to_string()),
            scheme: u.scheme().to_string(),
            port: u.port_or_known_default(),
        }),
        Err(e) => Err(e.to_string()),
    }
}

/// Parses a url with `url::Url::parse`, appends `key=value` to its query with
/// `query_pairs_mut().append_pair` and renders it back. The result is named by
/// `url_append_pair_result`; since the same `Url::parse` runs first, it fails
/// exactly where `url_parse_result` does, with the same error text.
#[verifier::external_body]
pub(crate) fn append_query_pair(url: &str, key: &str, value: &str) -> (res: Result<String, String>)
    ensures
        match res {
            Ok(s) => url_append_pair_result(url@, key@, value@) == Ok::<Seq<char>, Seq<char>>(s@)
                && url_parse_result(url@) is Ok,
            Err(e) => url_append_pair_result(url@, key@, value@) == Err::<Seq<char>, Seq<char>>(e@)
                && url_parse_result(url@) == Err::<OriginView, Seq<char>>(e@),
        },
{
    match url::Url::parse(url) {
        Ok(mut u) => {
            u.query_pairs_mut().append_pair(key, value);
            Ok(String::from(u))
        },
        Err(e) => Err(e.to_string()),
    }
}

/// The prefix of the message that a return url that does not parse is refused with.
pub open spec fn return_url_parse_prefix() -> Seq<char> {
    "Failed to parse return url: "@
}

/// Whether `return_url` may be returned to from the frontend at `frontend_url`:
/// `Err` with the parse error when the return url does not parse, otherwise
/// whether both urls have the same domain, scheme and port.
pub open spec fn return_url_check(frontend_url: Seq<char>, return_url: Seq<char>) -> Result<bool, Seq<char>> {
    match url_parse_result(return_url) {
        Err(e) => Err(return_url_parse_prefix() + e),
        Ok(r) => Ok(url_parse_result(frontend_url) == Ok::<OriginView, Seq<char>>(r)),
    }
}

/// Whether a url can be configured as the frontend url.
pub open spec fn is_url(s: Seq<char>) -> bool {
    url_parse_result(s) is Ok
}

pub open spec fn result_str_view<T>(r: Result<T, String>) -> Result<T, Seq<char>> {
    match r {
        Ok(v) => Ok(v),
        Err(e) => Err(e@),
    }
}

/// Checks that `return_url` points to the same place (domain, scheme, port or
/// its default) as the configured `frontend_url`. The frontend url must be a
/// url wherever the return url parses.
pub fn is_valid_return_url(frontend_url: &str, return_url: &str) -> (res: Result<bool, String>)
    requires
        is_url(return_url@) ==> is_url(frontend_url@),
    ensures
        result_str_view(res) == return_url_check(frontend_url@, return_url@),
        res matches Ok(true) ==> (url_parse_result(frontend_url@) matches Ok(f)
            && url_parse_result(return_url@) matches Ok(r) && f.0 == r.0 && f.1 == r.1 && f.2 == r.2),
        res matches Ok(false) ==> (url_parse_result(frontend_url@) matches Ok(f)
            && url_parse_result(return_url@) matches Ok(r) && !(f.0 == r.0 && f.1 == r.1 && f.2 == r.2)),
        res is Err <==> url_parse_result(return_url@) is Err,
{
    let ru = match parse_url_origin(return_url) {
        Ok(o) => o,
        Err(e) => {
            let mut message = String::from_str("Failed to parse return url: ");
            message.append(e.as_str());
            return Err(message);
        },
    };
    let fu = match parse_url_origin(frontend_url) {
        Ok(o) => o,
        Err(_) => {
            proof {
                assert(false);
            }
            return Err(String::new());
        },
    };
    let same_domain = match (&ru.domain, &fu.domain) {
        (Some(a), Some(b)) => *a == *b,
        (None, None) => true,
        _ => false,
    };
    let result = same_domain && ru.scheme == fu.scheme && ru.port == fu.port;
    proof {
        if result {
            assert(ru.view_parts() == fu.view_parts());
        } else {
            assert(ru.view_parts() != fu.view_parts());
        }
    }
    Ok(result)
}

/// The same check where nothing is known of the frontend url: `None` when the
/// return url parses but the frontend url does not.
pub fn try_is_valid_return_url(frontend_url: &str, return_url: &str) -> (res: Option<Result<bool, String>>)
    ensures
        res is None <==> is_url(return_url@) && !is_url(frontend_url@),
        res matches Some(r) ==> result_str_view(r) == return_url_check(frontend_url@, return_url@),
{
    let ru = parse_url_origin(return_url);
    let fu = parse_url_origin(frontend_url);
    if ru.is_ok() && fu.is_err() {
        None
    } else {
        Some(is_valid_return_url(frontend_url, return_url))
    }
}

/// A frontend url that parses is a valid return url for itself.
pub proof fn lemma_return_url_check_reflexive(url: Seq<char>)
    requires
        is_url(url),
    ensures
        return_url_check(url, url) == Ok::<bool, Seq<char>>(true),
{
}

/// Between two urls that parse, the check is symmetric.
pub proof fn lemma_return_url_check_symmetric(a: Seq<char>, b: Seq<char>)
    requires
        is_url(a),
        is_url(b),
    ensures
        return_url_check(a, b) == return_url_check(b, a),
{
}

/// Two return urls accepted for the same frontend url accept each other.
pub proof fn lemma_return_url_check_transitive(f: Seq<char>, a: Seq<char>, b: Seq<char>)
    requires
        return_url_check(f, a) == Ok::<bool, Seq<char>>(true),
        return_url_check(f, b) == Ok::<bool, Seq<char>>(true),
    ensures
        return_url_check(a, b) == Ok::<bool, Seq<char>>(true),
{
}

/// For a frontend url and a return url that both parse, the check accepts
/// exactly when their origins are equal: the same domain (or both without
/// one), the same scheme and the same port or default port. A return url that
/// does not parse is refused with its parse error.
pub proof fn lemma_return_url_accepted_iff_same_origin(frontend_url: Seq<char>, return_url: Seq<char>)
    ensures
        url_parse_result(frontend_url) matches Ok(f) ==> (url_parse_result(return_url) matches Ok(r) ==> (
            return_url_check(frontend_url, return_url) == Ok::<bool, Seq<char>>(
                f.0 == r.0 && f.1 == r.1 && f.2 == r.2,
            ))),
        url_parse_result(return_url) matches Err(e) ==> return_url_check(frontend_url, return_url)
            == Err::<bool, Seq<char>>("Failed to parse return url: "@ + e),
{
}

/// Urls whose domains differ are never accepted for each other, whatever
/// their schemes and ports.
pub proof fn lemma_different_domains_are_refused(frontend_url: Seq<char>, return_url: Seq<char>)
    requires
        url_parse_result(frontend_url) is Ok,
        url_parse_result(return_url) is Ok,
        url_parse_result(frontend_url)->Ok_0.0 != url_parse_result(return_url)->Ok_0.0,
    ensures
        return_url_check(frontend_url, return_url) == Ok::<bool, Seq<char>>(false),
{
}

} // verus!

use api_server::return_url::{is_valid_return_url, try_is_valid_return_url};

#[derive(Debug)]
struct UrlTestCase {
    frontend_url: &'static str,
    return_url: &'static str,
}

#[test]
fn valid_urls() {
    let cases = vec![
        UrlTestCase {
            frontend_url: "http://localhost:4200",
            return_url: "http://localhost:4200",
        },
        UrlTestCase {
            frontend_url: "http://localhost:4200",
            return_url: "http://localhost:4200/",
        },
        UrlTestCase {
            frontend_url: "http://localhost:4200",
            return_url: "http://localhost:4200/foo",
        },
        UrlTestCase {
            frontend_url: "http://localhost:4200",
            return_url: "http://localhost:4200?foo=bar",
        },
        UrlTestCase {
            frontend_url: "http://localhost:4200",
            return_url: "http://localhost:4200?foo=bar&baz=boom",
        },
        UrlTestCase {
            frontend_url: "http://localhost:4200",
            return_url: "http://localhost:4200#fragment",
        },
        UrlTestCase {
            frontend_url: "http://localhost:4200",
            return_url: "http://localhost:4200/foo?bar=baz",
        },
        UrlTestCase {
            frontend_url: "http://my.site.com",
            return_url: "http://my.site.com",
        },
        UrlTestCase {
            frontend_url: "http://my.site.com",
            return_url: "http://my.site.com:80",
        },
        UrlTestCase {
            frontend_url: "http://my.site.com",
            return_url: "http://my.site.com/foo",
        },
        UrlTestCase {
            frontend_url: "http://my.site.com",
            return_url: "http://my.site.com?foo=bar",
        },
    ];

    for case in cases {
        let result = is_valid_return_url(case.frontend_url, case.return_url).unwrap();
        assert!(result, "case {:?} failed", case);
    }
}

#[test]
fn invalid_urls() {
    let cases = vec![
        UrlTestCase {
            frontend_url: "http://localhost:4200",
            return_url: "http://localhost:4201",
        },
        UrlTestCase {
            frontend_url: "http://localhost:4200",
            return_url: "http://localhost:4199",
        },
        UrlTestCase {
            frontend_url: "http://localhost:4200",
            return_url: "http://localhost",
        },
        UrlTestCase {
            frontend_url: "http://localhost:4200",
            return_url: "https://localhost:4200",
        },
        UrlTestCase {
            frontend_url: "http://localhost:4200",
            return_url: "https://localhost:4200",
        },
        UrlTestCase {
            frontend_url: "https://localhost:4200",
            return_url: "http://localhost:4200",
        },
        UrlTestCase {
            frontend_url: "https://my.site.com",
            return_url: "http://my.site.com",
        },
        UrlTestCase {
            frontend_url: "http://my.site.com",
            return_url: "https://my.site.com",
        },
        UrlTestCase {
            frontend_url: "http://my.site.com:443",
            return_url: "https://my.site.com",
        },
        UrlTestCase {
            frontend_url: "http://my.site.com:443",
            return_url: "http://my.site.com",
        },
        UrlTestCase {
            frontend_url: "https://my.site.com:443",
            return_url: "http://my.site.com",
        },
        UrlTestCase {
            frontend_url: "https://my.site.com:80",
            return_url: "http://my.site.com",
        },
        UrlTestCase {
            frontend_url: "https://my.site.com:80",
            return_url: "https://my.site.com",
        },
        UrlTestCase {
            frontend_url: "http://my.site.com",
            return_url: "http://my.site.com.total.leet.hacker.com",
        },
    ];

    for case in cases {
        let result = is_valid_return_url(case.frontend_url, case.return_url).unwrap();
        assert!(!result, "case {:?} succeeded", case);
    }
}

#[test]
fn unparsable_return_url_is_reported() {
    let result = is_valid_return_url("http://localhost:4200", "not a url");
    let message = result.unwrap_err();
    assert!(message.starts_with("Failed to parse return url: "));
    assert_eq!(message, "Failed to parse return url: relative URL without a base");
}

#[test]
fn unparsable_return_url_needs_no_frontend() {
    assert!(is_valid_return_url("also not a url", "not a url").is_err());
}

#[test]
fn return_url_check_is_reflexive_and_symmetric() {
    for url in ["http://localhost:4200", "https://my.site.com/x", "http://127.0.0.1:8080"] {
        assert_eq!(is_valid_return_url(url, url), Ok(true));
    }
    let a = "http://localhost:4200/a";
    let b = "http://localhost:4201/b";
    assert_eq!(is_valid_return_url(a, b), is_valid_return_url(b, a));
}

#[test]
fn unparsable_frontend_url_is_reported_as_none() {
    assert_eq!(try_is_valid_return_url("not a url", "http://localhost:4200"), None);
    assert_eq!(
        try_is_valid_return_url("http://localhost:4200", "http://localhost:4200/x"),
        Some(Ok(true))
    );
    assert!(matches!(try_is_valid_return_url("not a url", "also not"), Some(Err(_))));
}

#[test]
fn return_urls_accepted_for_one_frontend_accept_each_other() {
    let frontend = "http://my.site.com";
    let a = "http://my.site.com/a?x=1";
    let b = "http://my.site.com:80/b#frag";
    assert_eq!(is_valid_return_url(frontend, a), Ok(true));
    assert_eq!(is_valid_return_url(frontend, b), Ok(true));
    assert_eq!(is_valid_return_url(a, b), Ok(true));
}

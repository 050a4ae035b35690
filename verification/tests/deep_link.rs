use hackerai_desktop::deep_link::{
    choose_origin, classify, first_param, is_addressed_to_endpoint, is_hex_digit_char,
    is_valid_token, last_param, origin_of, path_is_endpoint, percent_encode, resolve_origin,
    validate, validate_parsed, AuthErrorReason, CallbackResult, LinkPolicy, OriginChoice,
    APP_SCHEME, AUTH_ENDPOINT, DEFAULT_HOST, DEFAULT_ORIGIN, REDIRECT_PATH, TOKEN_LENGTH,
};
use hackerai_desktop::url_parts::UrlParts;

const TOKEN: &str = "0123456789abcdef0123456789ABCDEF0123456789abcdef0123456789abcdef";

fn pair(key: &str, value: &str) -> (String, String) {
    (key.to_string(), value.to_string())
}

fn auth_parts(query: Vec<(String, String)>) -> UrlParts {
    UrlParts {
        scheme: "hackerai".to_string(),
        host: Some("auth".to_string()),
        path: String::new(),
        query,
        port: None,
    }
}

fn origin_parts(scheme: &str, host: &str, port: Option<u16>) -> UrlParts {
    UrlParts {
        scheme: scheme.to_string(),
        host: Some(host.to_string()),
        path: "/".to_string(),
        query: Vec::new(),
        port,
    }
}

fn dev_policy() -> LinkPolicy {
    LinkPolicy {
        allowed_hosts: vec!["hackerai.co".to_string(), "localhost".to_string()],
        default_origin: "https://hackerai.co".to_string(),
    }
}

fn callback(token: &str, origin: Option<&str>, origin_rejected: bool) -> CallbackResult {
    CallbackResult::AuthCallback {
        token: token.to_string(),
        origin: origin.map(|o| o.to_string()),
        origin_rejected,
    }
}

fn error(reason: AuthErrorReason) -> CallbackResult {
    CallbackResult::AuthError { reason }
}

#[test]
fn constants_are_the_applications() {
    assert_eq!(APP_SCHEME, "hackerai");
    assert_eq!(AUTH_ENDPOINT, "auth");
    assert_eq!(DEFAULT_ORIGIN, "https://hackerai.co");
    assert_eq!(DEFAULT_HOST, "hackerai.co");
    assert_eq!(REDIRECT_PATH, "/desktop-callback?token=");
    assert_eq!(TOKEN_LENGTH, 64);
    assert_eq!(TOKEN.len(), 64);
}

#[test]
fn production_policy_allows_its_own_host_only() {
    let policy = LinkPolicy::production();
    assert_eq!(policy.allowed_hosts, vec!["hackerai.co".to_string()]);
    assert_eq!(policy.default_origin, "https://hackerai.co");
    assert!(policy.allows_host("hackerai.co"));
    assert!(!policy.allows_host("localhost"));
    assert!(!policy.allows_host("HACKERAI.CO"));
    assert!(!policy.allows_host("hackerai.co."));
    assert!(!policy.allows_host("www.hackerai.co"));
    assert!(!policy.allows_host(""));
}

#[test]
fn empty_allow_list_allows_nothing() {
    let policy = LinkPolicy { allowed_hosts: Vec::new(), default_origin: "https://d".to_string() };
    assert!(!policy.allows_host("hackerai.co"));
    assert!(!policy.allows_host(""));
}

#[test]
fn hex_digits_are_recognised() {
    for c in "0123456789abcdefABCDEF".chars() {
        assert!(is_hex_digit_char(c), "{c}");
    }
    for c in "gGzZ/:@`- \u{e9}\u{ff10}".chars() {
        assert!(!is_hex_digit_char(c), "{c}");
    }
}

#[test]
fn token_of_sixty_four_hex_digits_is_valid() {
    assert!(is_valid_token(TOKEN));
    assert!(is_valid_token(&"a".repeat(64)));
    assert!(is_valid_token(&"F".repeat(64)));
    assert!(is_valid_token(&"0".repeat(64)));
}

#[test]
fn token_of_another_length_is_invalid() {
    assert!(!is_valid_token(""));
    assert!(!is_valid_token(&"a".repeat(63)));
    assert!(!is_valid_token(&"a".repeat(65)));
    assert!(!is_valid_token(&"a".repeat(128)));
}

#[test]
fn token_with_another_character_is_invalid() {
    for position in [0usize, 31, 63] {
        for bad in ['g', 'G', ' ', '-', '%', '\u{e9}'] {
            let mut chars: Vec<char> = TOKEN.chars().collect();
            chars[position] = bad;
            let token: String = chars.into_iter().collect();
            assert!(!is_valid_token(&token), "{token}");
        }
    }
}

#[test]
fn token_is_counted_in_characters() {
    // 64 bytes, but 32 characters
    assert!(!is_valid_token(&"\u{e9}".repeat(32)));
    // full-width digits are no hex digits
    assert!(!is_valid_token(&"\u{ff10}".repeat(64)));
}

#[test]
fn percent_encoding_keeps_unreserved_characters() {
    let unreserved = "ABCDEFGHIJKLMNOPQRSTUVWXYZabcdefghijklmnopqrstuvwxyz0123456789-._~";
    assert_eq!(percent_encode(unreserved), unreserved);
    assert_eq!(percent_encode(""), "");
}

#[test]
fn percent_encoding_escapes_the_rest() {
    assert_eq!(percent_encode("a b&c"), "a%20b%26c");
    assert_eq!(percent_encode("/?#=+%"), "%2F%3F%23%3D%2B%25");
    assert_eq!(percent_encode("\u{e9}"), "%C3%A9");
    assert_eq!(percent_encode("\u{20ac}"), "%E2%82%AC");
    assert_eq!(percent_encode("\u{1f600}"), "%F0%9F%98%80");
    assert_eq!(percent_encode("\u{0}\u{7f}"), "%00%7F");
    assert_eq!(percent_encode("\n"), "%0A");
}

#[test]
fn valid_token_is_its_own_encoding() {
    assert_eq!(percent_encode(TOKEN), TOKEN);
}

#[test]
fn first_param_takes_the_first_occurrence() {
    let query = vec![pair("a", "1"), pair("b", "2"), pair("a", "3")];
    assert_eq!(first_param(&query, "a"), Some("1".to_string()));
    assert_eq!(first_param(&query, "b"), Some("2".to_string()));
    assert_eq!(first_param(&query, "c"), None);
    assert_eq!(first_param(&Vec::new(), "a"), None);
}

#[test]
fn last_param_takes_the_last_occurrence() {
    let query = vec![pair("a", "1"), pair("b", "2"), pair("a", "3")];
    assert_eq!(last_param(&query, "a"), Some("3".to_string()));
    assert_eq!(last_param(&query, "b"), Some("2".to_string()));
    assert_eq!(last_param(&query, "c"), None);
    assert_eq!(last_param(&Vec::new(), "a"), None);
}

#[test]
fn params_match_keys_exactly() {
    let query = vec![pair("Token", "1"), pair("token ", "2"), pair("", "3")];
    assert_eq!(first_param(&query, "token"), None);
    assert_eq!(first_param(&query, ""), Some("3".to_string()));
}

#[test]
fn origin_on_the_allow_list_with_https_is_kept() {
    let policy = LinkPolicy::production();
    let parsed = Some(origin_parts("https", "hackerai.co", None));
    assert_eq!(
        choose_origin(&parsed, &policy),
        OriginChoice { origin: "https://hackerai.co".to_string(), substituted: false }
    );
}

#[test]
fn origin_off_the_allow_list_gives_the_default() {
    let policy = LinkPolicy::production();
    let parsed = Some(origin_parts("https", "evil.example", None));
    assert_eq!(
        choose_origin(&parsed, &policy),
        OriginChoice { origin: "https://hackerai.co".to_string(), substituted: true }
    );
}

#[test]
fn origin_with_http_gives_the_default_unless_localhost() {
    let policy = dev_policy();
    let plain = Some(origin_parts("http", "hackerai.co", None));
    assert_eq!(
        choose_origin(&plain, &policy),
        OriginChoice { origin: "https://hackerai.co".to_string(), substituted: true }
    );
    let local = Some(origin_parts("http", "localhost", Some(3000)));
    assert_eq!(
        choose_origin(&local, &policy),
        OriginChoice { origin: "http://localhost:3000".to_string(), substituted: false }
    );
    let secure_local = Some(origin_parts("https", "localhost", None));
    assert_eq!(
        choose_origin(&secure_local, &policy),
        OriginChoice { origin: "https://localhost".to_string(), substituted: false }
    );
}

#[test]
fn origin_with_another_scheme_gives_the_default() {
    let policy = dev_policy();
    for scheme in ["ftp", "ws", "wss", "hackerai", "javascript", "HTTPS", ""] {
        let parsed = Some(origin_parts(scheme, "hackerai.co", None));
        assert_eq!(
            choose_origin(&parsed, &policy),
            OriginChoice { origin: "https://hackerai.co".to_string(), substituted: true },
            "{scheme}"
        );
    }
}

#[test]
fn origin_without_host_or_unparsed_gives_the_default() {
    let policy = dev_policy();
    let mut hostless = origin_parts("https", "", None);
    hostless.host = None;
    assert_eq!(
        choose_origin(&Some(hostless), &policy),
        OriginChoice { origin: "https://hackerai.co".to_string(), substituted: true }
    );
    assert_eq!(
        choose_origin(&None, &policy),
        OriginChoice { origin: "https://hackerai.co".to_string(), substituted: true }
    );
}

#[test]
fn localhost_off_the_allow_list_gives_the_default() {
    let policy = LinkPolicy::production();
    let local = Some(origin_parts("http", "localhost", Some(3000)));
    assert_eq!(
        choose_origin(&local, &policy),
        OriginChoice { origin: "https://hackerai.co".to_string(), substituted: true }
    );
}

#[test]
fn resolve_origin_parses_the_candidate() {
    let policy = dev_policy();
    let kept = |origin: &str| OriginChoice { origin: origin.to_string(), substituted: false };
    let fallback = OriginChoice { origin: "https://hackerai.co".to_string(), substituted: true };
    assert_eq!(resolve_origin("https://hackerai.co", &policy), kept("https://hackerai.co"));
    assert_eq!(resolve_origin("https://hackerai.co/", &policy), kept("https://hackerai.co"));
    assert_eq!(resolve_origin("https://hackerai.co/a/b?c#d", &policy), kept("https://hackerai.co"));
    assert_eq!(resolve_origin("https://HackerAI.co", &policy), kept("https://hackerai.co"));
    assert_eq!(resolve_origin("https://hackerai.co:443", &policy), kept("https://hackerai.co"));
    assert_eq!(resolve_origin("https://hackerai.co:8443", &policy), kept("https://hackerai.co:8443"));
    assert_eq!(resolve_origin("http://localhost:3000", &policy), kept("http://localhost:3000"));
    assert_eq!(resolve_origin("http://localhost", &policy), kept("http://localhost"));
    assert_eq!(resolve_origin("http://hackerai.co", &policy), fallback);
    assert_eq!(resolve_origin("https://evil.example", &policy), fallback);
    assert_eq!(resolve_origin("https://hackerai.co.evil.example", &policy), fallback);
    assert_eq!(resolve_origin("https://evil.example/hackerai.co", &policy), fallback);
    assert_eq!(resolve_origin("https://hackerai.co@evil.example", &policy), fallback);
    assert_eq!(resolve_origin("hackerai.co", &policy), fallback);
    assert_eq!(resolve_origin("//hackerai.co", &policy), fallback);
    assert_eq!(resolve_origin("", &policy), fallback);
    assert_eq!(resolve_origin("javascript:alert(1)", &policy), fallback);
    assert_eq!(resolve_origin("ftp://hackerai.co", &policy), fallback);
}

#[test]
fn path_names_the_endpoint() {
    assert!(path_is_endpoint("auth"));
    assert!(path_is_endpoint("/auth"));
    assert!(path_is_endpoint("auth/"));
    assert!(path_is_endpoint("/auth/"));
    assert!(path_is_endpoint("/auth/callback"));
    assert!(path_is_endpoint("auth/callback"));
    assert!(!path_is_endpoint(""));
    assert!(!path_is_endpoint("/"));
    assert!(!path_is_endpoint("//auth"));
    assert!(!path_is_endpoint("/authx"));
    assert!(!path_is_endpoint("/aut"));
    assert!(!path_is_endpoint("/callback/auth"));
    assert!(!path_is_endpoint("/Auth"));
}

#[test]
fn classify_accepts_token_without_origin() {
    let policy = LinkPolicy::production();
    let parts = auth_parts(vec![pair("token", TOKEN)]);
    assert_eq!(classify(&parts, &policy), callback(TOKEN, None, false));
}

#[test]
fn classify_ignores_another_scheme() {
    let policy = LinkPolicy::production();
    for scheme in ["https", "http", "hackerai2", "hacker", "HACKERAI", ""] {
        let mut parts = auth_parts(vec![pair("token", TOKEN)]);
        parts.scheme = scheme.to_string();
        assert_eq!(classify(&parts, &policy), CallbackResult::Unknown, "{scheme}");
    }
}

#[test]
fn classify_ignores_another_endpoint() {
    let policy = LinkPolicy::production();
    let mut parts = auth_parts(vec![pair("token", TOKEN)]);
    parts.host = Some("settings".to_string());
    assert_eq!(classify(&parts, &policy), CallbackResult::Unknown);
    parts.path = "/auth".to_string();
    assert_eq!(classify(&parts, &policy), CallbackResult::Unknown);
    parts.host = Some("Auth".to_string());
    assert_eq!(classify(&parts, &policy), CallbackResult::Unknown);
}

#[test]
fn classify_reads_the_endpoint_from_the_path_without_host() {
    let policy = LinkPolicy::production();
    let mut parts = auth_parts(vec![pair("token", TOKEN)]);
    parts.host = None;
    parts.path = "/auth".to_string();
    assert_eq!(classify(&parts, &policy), callback(TOKEN, None, false));
    parts.host = Some(String::new());
    assert_eq!(classify(&parts, &policy), callback(TOKEN, None, false));
    parts.path = "/other".to_string();
    assert_eq!(classify(&parts, &policy), CallbackResult::Unknown);
}

#[test]
fn classify_rejects_a_malformed_token() {
    let policy = LinkPolicy::production();
    for token in ["", "abc", &TOKEN[1..], &format!("{TOKEN}0"), &"g".repeat(64)] {
        let parts = auth_parts(vec![pair("token", token)]);
        assert_eq!(
            classify(&parts, &policy),
            error(AuthErrorReason::InvalidTokenFormat),
            "{token}"
        );
    }
}

#[test]
fn classify_checks_the_token_before_error_and_origin() {
    let policy = LinkPolicy::production();
    let parts = auth_parts(vec![
        pair("error", "denied"),
        pair("origin", "https://hackerai.co"),
        pair("token", "bad"),
    ]);
    assert_eq!(classify(&parts, &policy), error(AuthErrorReason::InvalidTokenFormat));
    let parts = auth_parts(vec![pair("error", "denied"), pair("token", TOKEN)]);
    assert_eq!(classify(&parts, &policy), callback(TOKEN, None, false));
}

#[test]
fn classify_judges_the_first_token() {
    let policy = LinkPolicy::production();
    let parts = auth_parts(vec![pair("token", "bad"), pair("token", TOKEN)]);
    assert_eq!(classify(&parts, &policy), error(AuthErrorReason::InvalidTokenFormat));
    let parts = auth_parts(vec![pair("token", TOKEN), pair("token", "bad")]);
    assert_eq!(classify(&parts, &policy), callback(TOKEN, None, false));
}

#[test]
fn classify_reports_the_reason_of_the_link() {
    let policy = LinkPolicy::production();
    let parts = auth_parts(vec![pair("error", "access_denied")]);
    assert_eq!(
        classify(&parts, &policy),
        error(AuthErrorReason::Reported("access_denied".to_string()))
    );
    let parts = auth_parts(vec![pair("reason", "cancelled")]);
    assert_eq!(
        classify(&parts, &policy),
        error(AuthErrorReason::Reported("cancelled".to_string()))
    );
}

#[test]
fn classify_reads_the_reason_before_the_error() {
    let policy = LinkPolicy::production();
    let parts = auth_parts(vec![pair("error", "a"), pair("reason", "b")]);
    assert_eq!(classify(&parts, &policy), error(AuthErrorReason::Reported("b".to_string())));
    let parts = auth_parts(vec![pair("reason", "b"), pair("error", "a")]);
    assert_eq!(classify(&parts, &policy), error(AuthErrorReason::Reported("b".to_string())));
    let parts = auth_parts(vec![pair("reason", "first"), pair("reason", "second")]);
    assert_eq!(classify(&parts, &policy), error(AuthErrorReason::Reported("first".to_string())));
    assert_eq!(
        validate("hackerai://auth/error?error=a&reason=b", &policy),
        error(AuthErrorReason::Reported("b".to_string()))
    );
    assert_eq!(
        validate("hackerai://auth/error?reason=one%20two&reason=three", &policy),
        error(AuthErrorReason::Reported("one two".to_string()))
    );
}

#[test]
fn classify_reports_a_missing_token() {
    let policy = LinkPolicy::production();
    assert_eq!(classify(&auth_parts(Vec::new()), &policy), error(AuthErrorReason::MissingToken));
    let parts = auth_parts(vec![pair("state", "s"), pair("origin", "https://hackerai.co")]);
    assert_eq!(classify(&parts, &policy), error(AuthErrorReason::MissingToken));
}

#[test]
fn classify_keeps_an_acceptable_origin() {
    let policy = LinkPolicy::production();
    let parts = auth_parts(vec![pair("token", TOKEN), pair("origin", "https://hackerai.co/x")]);
    assert_eq!(classify(&parts, &policy), callback(TOKEN, Some("https://hackerai.co"), false));
}

#[test]
fn classify_substitutes_the_default_for_a_refused_origin() {
    let policy = LinkPolicy::production();
    for origin in ["https://evil.example", "http://hackerai.co", "nonsense", "", "http://localhost"]
    {
        let parts = auth_parts(vec![pair("token", TOKEN), pair("origin", origin)]);
        assert_eq!(
            classify(&parts, &policy),
            callback(TOKEN, Some("https://hackerai.co"), true),
            "{origin}"
        );
    }
}

#[test]
fn validate_accepts_the_documented_link() {
    let policy = LinkPolicy::production();
    let url = format!(
        "hackerai://auth?token={TOKEN}&origin=https%3A%2F%2Fhackerai.co&state=67e55044-10b1-426f-9247-bb680e5fe0c8"
    );
    assert_eq!(validate(&url, &policy), callback(TOKEN, Some("https://hackerai.co"), false));
}

#[test]
fn validate_accepts_the_callback_path() {
    let policy = LinkPolicy::production();
    let url = format!("hackerai://auth/callback?token={TOKEN}");
    assert_eq!(validate(&url, &policy), callback(TOKEN, None, false));
}

#[test]
fn validate_reads_the_scheme_without_regard_to_case() {
    let policy = LinkPolicy::production();
    let url = format!("HackerAI://auth?token={TOKEN}");
    assert_eq!(validate(&url, &policy), callback(TOKEN, None, false));
}

#[test]
fn validate_reads_the_endpoint_from_host_or_path() {
    let policy = LinkPolicy::production();
    for prefix in ["hackerai://auth", "hackerai:auth", "hackerai:/auth", "hackerai:///auth"] {
        let url = format!("{prefix}?token={TOKEN}");
        assert_eq!(validate(&url, &policy), callback(TOKEN, None, false), "{prefix}");
    }
    for prefix in ["hackerai://other", "hackerai:other", "hackerai://other/auth", "hackerai://"] {
        let url = format!("{prefix}?token={TOKEN}");
        assert_eq!(validate(&url, &policy), CallbackResult::Unknown, "{prefix}");
    }
}

#[test]
fn validate_ignores_other_schemes() {
    let policy = LinkPolicy::production();
    for url in [
        format!("https://auth?token={TOKEN}"),
        format!("https://hackerai.co/auth?token={TOKEN}"),
        format!("hackerai2://auth?token={TOKEN}"),
        "mailto:someone@example.com".to_string(),
    ] {
        assert_eq!(validate(&url, &policy), CallbackResult::Unknown, "{url}");
    }
}

#[test]
fn validate_ignores_text_that_is_no_url() {
    let policy = LinkPolicy::production();
    for url in [
        "",
        "not a url",
        "auth?token=1",
        "//auth",
        "https://[::1",
        "HACKERAI://[::1",
        "hackerai://[::1",
        "hackerai://settings:99999999/",
        "hackerai://a b/",
        "hackerai:",
        "HACKERAI://auth:99999999/",
        "hackerai://authority:99999999/",
        "hackerai://auth b/",
        "hackerai://auth:99999999/",
        "hackerai://auth:99999999/callback?token=1",
        "hackerai://auth:x/error?reason=r",
        "hackerai://auth:pw@evil:99999999/",
        "hackerai://auth@evil:99999999/",
    ] {
        assert_eq!(validate(url, &policy), CallbackResult::Unknown, "{url}");
    }
}

#[test]
fn validate_ignores_a_longer_host_parsed_or_not() {
    let policy = LinkPolicy::production();
    let parsed = format!("hackerai://authority/?token={TOKEN}");
    assert_eq!(validate(&parsed, &policy), CallbackResult::Unknown);
    assert_eq!(validate("hackerai://authority:99999999/", &policy), CallbackResult::Unknown);
}

#[test]
fn unparsed_text_is_an_error_only_at_the_endpoint_itself() {
    let policy = LinkPolicy::production();
    for url in [
        "hackerai://auth",
        "hackerai://auth/",
        "hackerai://auth/callback?token=1",
        "hackerai://auth?token=1",
        "hackerai://auth#x",
    ] {
        assert_eq!(
            validate_parsed(url, &None, &policy),
            error(AuthErrorReason::InvalidUrl),
            "{url}"
        );
    }
    for url in [
        "hackerai://authority",
        "hackerai://authority:99999999/",
        "hackerai://auth:99999999/",
        "hackerai://auth:pw@evil:99999999/",
        "hackerai://auth@evil/",
        "hackerai://auth b/",
        "hackerai://aut",
        "hackerai://settings",
        "HACKERAI://auth/",
        "https://auth/",
        "",
    ] {
        assert_eq!(validate_parsed(url, &None, &policy), CallbackResult::Unknown, "{url}");
    }
}

#[test]
fn validate_parsed_classifies_what_parsed() {
    let policy = LinkPolicy::production();
    let parts = auth_parts(vec![pair("token", TOKEN)]);
    assert_eq!(
        validate_parsed("anything", &Some(parts), &policy),
        callback(TOKEN, None, false)
    );
    let mut other = auth_parts(vec![pair("token", TOKEN)]);
    other.host = Some("authority".to_string());
    assert_eq!(
        validate_parsed("hackerai://auth/", &Some(other), &policy),
        CallbackResult::Unknown
    );
}

#[test]
fn endpoint_address_ends_with_the_host() {
    assert!(is_addressed_to_endpoint("hackerai://auth"));
    assert!(is_addressed_to_endpoint("hackerai://auth/"));
    assert!(is_addressed_to_endpoint("hackerai://auth/callback?token=1"));
    assert!(is_addressed_to_endpoint("hackerai://auth?token=1"));
    assert!(is_addressed_to_endpoint("hackerai://auth#x"));
    assert!(!is_addressed_to_endpoint("hackerai://authority"));
    assert!(!is_addressed_to_endpoint("hackerai://authority:99999999/"));
    assert!(!is_addressed_to_endpoint("hackerai://auth:99999999/"));
    assert!(!is_addressed_to_endpoint("hackerai://auth:pw@evil:99999999/"));
    assert!(!is_addressed_to_endpoint("hackerai://auth@evil/"));
    assert!(!is_addressed_to_endpoint("hackerai://auth.evil/"));
    assert!(!is_addressed_to_endpoint("hackerai://auth b/"));
    assert!(!is_addressed_to_endpoint("hackerai://auth\u{e9}"));
    assert!(!is_addressed_to_endpoint("hackerai://aut"));
    assert!(!is_addressed_to_endpoint("hackerai:auth"));
    assert!(!is_addressed_to_endpoint("HACKERAI://auth"));
    assert!(!is_addressed_to_endpoint("hackerai://Auth"));
    assert!(!is_addressed_to_endpoint(" hackerai://auth"));
    assert!(!is_addressed_to_endpoint(""));
}

#[test]
fn origin_is_written_from_scheme_host_and_port() {
    assert_eq!(origin_of(&origin_parts("https", "hackerai.co", None)), "https://hackerai.co");
    assert_eq!(origin_of(&origin_parts("http", "localhost", Some(3000))), "http://localhost:3000");
    assert_eq!(origin_of(&origin_parts("https", "[::1]", Some(0))), "https://[::1]:0");
    assert_eq!(origin_of(&origin_parts("https", "h", Some(65535))), "https://h:65535");
    let mut hostless = origin_parts("unix", "", Some(1));
    hostless.host = None;
    assert_eq!(origin_of(&hostless), "unix://:1");
}

#[test]
fn validate_rejects_a_malformed_token() {
    let policy = LinkPolicy::production();
    assert_eq!(
        validate("hackerai://auth?token=abc", &policy),
        error(AuthErrorReason::InvalidTokenFormat)
    );
    assert_eq!(
        validate("hackerai://auth?token=", &policy),
        error(AuthErrorReason::InvalidTokenFormat)
    );
    let encoded = format!("hackerai://auth?token={}%20", &TOKEN[1..]);
    assert_eq!(validate(&encoded, &policy), error(AuthErrorReason::InvalidTokenFormat));
}

#[test]
fn validate_decodes_the_query() {
    let policy = LinkPolicy::production();
    // "%61" is "a": the decoded token is well formed
    let url = format!("hackerai://auth?token=%61{}", &TOKEN[1..]);
    let mut expected = String::from("a");
    expected.push_str(&TOKEN[1..]);
    assert_eq!(validate(&url, &policy), callback(&expected, None, false));
    assert_eq!(
        validate("hackerai://auth?error=access+denied%21", &policy),
        error(AuthErrorReason::Reported("access denied!".to_string()))
    );
}

#[test]
fn validate_reports_error_links() {
    let policy = LinkPolicy::production();
    assert_eq!(
        validate("hackerai://auth?error=access_denied", &policy),
        error(AuthErrorReason::Reported("access_denied".to_string()))
    );
    assert_eq!(
        validate("hackerai://auth/error?reason=expired", &policy),
        error(AuthErrorReason::Reported("expired".to_string()))
    );
    assert_eq!(validate("hackerai://auth", &policy), error(AuthErrorReason::MissingToken));
    assert_eq!(validate("hackerai://auth/error", &policy), error(AuthErrorReason::MissingToken));
    assert_eq!(validate("hackerai://auth?state=x", &policy), error(AuthErrorReason::MissingToken));
}

#[test]
fn validate_substitutes_the_default_origin() {
    let policy = dev_policy();
    for origin in [
        "https://evil.example",
        "http://hackerai.co",
        "https://hackerai.co.evil.example",
        "ftp://hackerai.co",
        "nonsense",
    ] {
        let url = format!("hackerai://auth?token={TOKEN}&origin={origin}");
        let result = validate(&url, &policy);
        assert_eq!(result, callback(TOKEN, Some("https://hackerai.co"), true), "{origin}");
        assert_eq!(
            result.redirect_target(&policy),
            Some(format!("https://hackerai.co/desktop-callback?token={TOKEN}")),
            "{origin}"
        );
    }
}

#[test]
fn validate_keeps_a_local_origin_where_allowed() {
    let policy = dev_policy();
    let url = format!("hackerai://auth?token={TOKEN}&origin=http://localhost:3000/path");
    let result = validate(&url, &policy);
    assert_eq!(result, callback(TOKEN, Some("http://localhost:3000"), false));
    assert_eq!(
        result.redirect_target(&policy),
        Some(format!("http://localhost:3000/desktop-callback?token={TOKEN}"))
    );
}

#[test]
fn redirect_without_origin_targets_the_default() {
    let policy = LinkPolicy::production();
    let url = format!("hackerai://auth?token={TOKEN}");
    let result = validate(&url, &policy);
    assert_eq!(
        result.redirect_target(&policy),
        Some(format!("https://hackerai.co/desktop-callback?token={TOKEN}"))
    );
}

#[test]
fn redirect_follows_the_policy_default() {
    let policy = LinkPolicy {
        allowed_hosts: Vec::new(),
        default_origin: "https://staging.example".to_string(),
    };
    assert_eq!(
        callback(TOKEN, None, false).redirect_target(&policy),
        Some(format!("https://staging.example/desktop-callback?token={TOKEN}"))
    );
}

#[test]
fn redirect_encodes_the_token() {
    let policy = LinkPolicy::production();
    assert_eq!(
        callback("a b/c", Some("https://hackerai.co"), false).redirect_target(&policy),
        Some("https://hackerai.co/desktop-callback?token=a%20b%2Fc".to_string())
    );
}

#[test]
fn redirect_exists_for_callbacks_only() {
    let policy = LinkPolicy::production();
    assert_eq!(CallbackResult::Unknown.redirect_target(&policy), None);
    assert_eq!(error(AuthErrorReason::MissingToken).redirect_target(&policy), None);
    assert_eq!(
        error(AuthErrorReason::Reported("x".to_string())).redirect_target(&policy),
        None
    );
}

//! Validation of the deep link that returns control from the browser to the
//! application after a login.

use vstd::prelude::*;
use vstd::string::*;
use crate::text::{
    chars_of, decimal, decimal_digits, join, opt_view, pairs_view, starts_with, str_eq,
    string_of, strings_view,
};
use crate::url_parts::{parse_url, parsed_url, parts_view, UrlParts, UrlPartsView};

verus! {

/// The scheme that the operating system routes to the application.
pub const APP_SCHEME: &'static str = "hackerai";

/// The host, or first path segment, of the links that end a login.
pub const AUTH_ENDPOINT: &'static str = "auth";

/// The origin of the production site.
pub const DEFAULT_ORIGIN: &'static str = "https://hackerai.co";

/// The host of the production site.
pub const DEFAULT_HOST: &'static str = "hackerai.co";

/// The number of characters of a callback token.
pub const TOKEN_LENGTH: usize = 64;

/// What follows an origin in the address that the browser is sent to.
pub const REDIRECT_PATH: &'static str = "/desktop-callback?token=";

/// Whether `c` is a hexadecimal digit, in either case.
pub open spec fn is_hex_digit(c: char) -> bool {
    ('0' <= c && c <= '9') || ('a' <= c && c <= 'f') || ('A' <= c && c <= 'F')
}

/// A callback token is well formed when it is made of exactly
/// [`TOKEN_LENGTH`] hexadecimal digits.
pub open spec fn valid_token(token: Seq<char>) -> bool {
    &&& token.len() == TOKEN_LENGTH
    &&& forall|i: int| 0 <= i < token.len() ==> is_hex_digit(#[trigger] token[i])
}

/// Whether `c` is a hexadecimal digit, in either case.
pub fn is_hex_digit_char(c: char) -> (r: bool)
    ensures
        r == is_hex_digit(c),
{
    (c >= '0' && c <= '9') || (c >= 'a' && c <= 'f') || (c >= 'A' && c <= 'F')
}

/// Whether `token` is a well-formed callback token.
pub fn is_valid_token(token: &str) -> (r: bool)
    ensures
        r == valid_token(token@),
{
    let chars = chars_of(token);
    if chars.len() != TOKEN_LENGTH {
        return false;
    }
    let mut i: usize = 0;
    while i < chars.len()
        invariant
            i <= chars.len(),
            chars@ == token@,
            forall|j: int| 0 <= j < i ==> is_hex_digit(#[trigger] chars@[j]),
        decreases chars.len() - i,
    {
        if !is_hex_digit_char(chars[i]) {
            return false;
        }
        i = i + 1;
    }
    true
}

/// The bytes that a URL carries as they are: letters, digits, `-`, `.`, `_`
/// and `~`.
pub open spec fn is_unreserved(b: u8) -> bool {
    ||| (0x30 <= b && b <= 0x39)
    ||| (0x41 <= b && b <= 0x5a)
    ||| (0x61 <= b && b <= 0x7a)
    ||| b == 0x2d
    ||| b == 0x2e
    ||| b == 0x5f
    ||| b == 0x7e
}

/// The upper-case hexadecimal digit of a value below sixteen.
pub open spec fn hex_upper(n: u8) -> char
    recommends
        n < 16,
{
    if n < 10 {
        (0x30 + n) as u8 as char
    } else {
        (0x37 + n) as u8 as char
    }
}

/// One byte as a URL carries it: itself where it is unreserved, else `%`
/// and its two upper-case hexadecimal digits.
pub open spec fn encoded_byte(b: u8) -> Seq<char> {
    if is_unreserved(b) {
        seq![b as char]
    } else {
        seq!['%', hex_upper(b / 16), hex_upper(b % 16)]
    }
}

/// The encodings of the bytes of `bytes`, one after the other.
pub open spec fn percent_encoded_bytes(bytes: Seq<u8>) -> Seq<char>
    decreases bytes.len(),
{
    if bytes.len() == 0 {
        Seq::empty()
    } else {
        percent_encoded_bytes(bytes.drop_last()) + encoded_byte(bytes.last())
    }
}

/// The percent-encoding of a text: that of its UTF-8 bytes.
pub open spec fn percent_encoded(text: Seq<char>) -> Seq<char> {
    percent_encoded_bytes(vstd::utf8::encode_utf8(text))
}

fn is_unreserved_byte(b: u8) -> (r: bool)
    ensures
        r == is_unreserved(b),
{
    (0x30 <= b && b <= 0x39) || (0x41 <= b && b <= 0x5a) || (0x61 <= b && b <= 0x7a) || b == 0x2d
        || b == 0x2e || b == 0x5f || b == 0x7e
}

fn hex_upper_char(n: u8) -> (c: char)
    requires
        n < 16,
    ensures
        c == hex_upper(n),
{
    if n < 10 {
        (0x30 + n) as char
    } else {
        (0x37 + n) as char
    }
}

/// Percent-encodes `text` for use as a value in a query string.
pub fn percent_encode(text: &str) -> (r: String)
    ensures
        r@ == percent_encoded(text@),
{
    let bytes = text.as_bytes();
    let mut out = String::new();
    let mut i: usize = 0;
    while i < bytes.len()
        invariant
            i <= bytes.len(),
            out@ == percent_encoded_bytes(bytes@.take(i as int)),
        decreases bytes.len() - i,
    {
        let b = bytes[i];
        assert(bytes@.take(i + 1).drop_last() == bytes@.take(i as int));
        if is_unreserved_byte(b) {
            out.push(b as char);
        } else {
            out.push('%');
            out.push(hex_upper_char(b / 16));
            out.push(hex_upper_char(b % 16));
        }
        i = i + 1;
    }
    assert(bytes@.take(i as int) == bytes@);
    out
}

/// A well-formed token is its own percent-encoding.
pub proof fn lemma_valid_token_encodes_to_itself(token: Seq<char>)
    requires
        valid_token(token),
    ensures
        percent_encoded(token) == token,
{
    vstd::utf8::is_ascii_chars_encode_utf8(token);
    let bytes = vstd::utf8::encode_utf8(token);
    lemma_hex_prefix_encodes_to_itself(token, bytes, token.len() as int);
    assert(bytes.take(token.len() as int) == bytes);
}

proof fn lemma_hex_prefix_encodes_to_itself(token: Seq<char>, bytes: Seq<u8>, n: int)
    requires
        0 <= n <= token.len(),
        bytes.len() == token.len(),
        forall|i: int| 0 <= i < token.len() ==> is_hex_digit(#[trigger] token[i]),
        forall|i: int| 0 <= i < token.len() ==> token[i] as u8 == #[trigger] bytes[i],
    ensures
        percent_encoded_bytes(bytes.take(n)) == token.take(n),
    decreases n,
{
    if n > 0 {
        lemma_hex_prefix_encodes_to_itself(token, bytes, n - 1);
        assert(bytes.take(n).drop_last() == bytes.take(n - 1));
    }
}

/// Where the browser may be sent back to after a login.
#[derive(Debug, Clone, PartialEq, Eq)]
pub struct LinkPolicy {
    /// The hosts that an origin may name.
    pub allowed_hosts: Vec<String>,
    /// The origin used where a link names none, or none that is acceptable.
    pub default_origin: String,
}

/// The mathematical value of a [`LinkPolicy`].
pub struct LinkPolicyView {
    pub allowed_hosts: Seq<Seq<char>>,
    pub default_origin: Seq<char>,
}

impl View for LinkPolicy {
    type V = LinkPolicyView;

    open spec fn view(&self) -> LinkPolicyView {
        LinkPolicyView {
            allowed_hosts: strings_view(self.allowed_hosts@),
            default_origin: self.default_origin@,
        }
    }
}

impl LinkPolicy {
    /// The policy of the production site: its own host only, and its own
    /// origin as the default.
    pub fn production() -> (r: LinkPolicy)
        ensures
            r@.allowed_hosts == seq![DEFAULT_HOST@],
            r@.default_origin == DEFAULT_ORIGIN@,
    {
        let mut hosts: Vec<String> = Vec::new();
        hosts.push(String::from_str(DEFAULT_HOST));
        LinkPolicy { allowed_hosts: hosts, default_origin: String::from_str(DEFAULT_ORIGIN) }
    }

    /// Whether `host` is one of the allowed hosts, character for character.
    pub fn allows_host(&self, host: &str) -> (r: bool)
        ensures
            r == self@.allowed_hosts.contains(host@),
    {
        let mut i: usize = 0;
        while i < self.allowed_hosts.len()
            invariant
                i <= self.allowed_hosts.len(),
                forall|j: int| 0 <= j < i ==> self@.allowed_hosts[j] != host@,
            decreases self.allowed_hosts.len() - i,
        {
            if str_eq(self.allowed_hosts[i].as_str(), host) {
                assert(self@.allowed_hosts[i as int] == host@);
                return true;
            }
            i = i + 1;
        }
        false
    }
}

/// The value of the first pair of `query` whose key is `key`.
pub open spec fn first_value(query: Seq<(Seq<char>, Seq<char>)>, key: Seq<char>) -> Option<
    Seq<char>,
>
    decreases query.len(),
{
    if query.len() == 0 {
        None
    } else if query[0].0 == key {
        Some(query[0].1)
    } else {
        first_value(query.drop_first(), key)
    }
}

/// The value of the last pair of `query` whose key is `key`.
pub open spec fn last_value(query: Seq<(Seq<char>, Seq<char>)>, key: Seq<char>) -> Option<
    Seq<char>,
>
    decreases query.len(),
{
    if query.len() == 0 {
        None
    } else if query.last().0 == key {
        Some(query.last().1)
    } else {
        last_value(query.drop_last(), key)
    }
}

/// The value that `query` gives `key` where it is read front to back and
/// the first occurrence counts.
pub fn first_param(query: &Vec<(String, String)>, key: &str) -> (r: Option<String>)
    ensures
        opt_view(r) == first_value(pairs_view(query@), key@),
{
    let ghost all = pairs_view(query@);
    let mut i: usize = 0;
    assert(all.skip(0) == all);
    while i < query.len()
        invariant
            i <= query.len(),
            all == pairs_view(query@),
            first_value(all, key@) == first_value(all.skip(i as int), key@),
        decreases query.len() - i,
    {
        assert(all.skip(i as int).drop_first() == all.skip(i + 1));
        if str_eq(query[i].0.as_str(), key) {
            return Some(query[i].1.clone());
        }
        i = i + 1;
    }
    None
}

/// The value that `query` gives `key` where a later occurrence replaces an
/// earlier one.
pub fn last_param(query: &Vec<(String, String)>, key: &str) -> (r: Option<String>)
    ensures
        opt_view(r) == last_value(pairs_view(query@), key@),
{
    let ghost all = pairs_view(query@);
    let mut found: Option<String> = None;
    let mut i: usize = 0;
    while i < query.len()
        invariant
            i <= query.len(),
            all == pairs_view(query@),
            opt_view(found) == last_value(all.take(i as int), key@),
        decreases query.len() - i,
    {
        assert(all.take(i + 1).drop_last() == all.take(i as int));
        if str_eq(query[i].0.as_str(), key) {
            found = Some(query[i].1.clone());
        }
        i = i + 1;
    }
    assert(all.take(i as int) == all);
    found
}

/// Whether a parsed origin may receive the browser: its host is on the
/// allow-list, and its scheme is `https`, or `http` where the host is
/// `localhost`.
pub open spec fn acceptable_origin(parts: UrlPartsView, policy: LinkPolicyView) -> bool {
    match parts.host {
        Some(host) => {
            &&& policy.allowed_hosts.contains(host)
            &&& (parts.scheme == "https"@ || (parts.scheme == "http"@ && host == "localhost"@))
        },
        None => false,
    }
}

/// The origin of a URL as text: its scheme, `://`, its host, and its port
/// after a colon where it names one that is not the default of the scheme.
pub open spec fn origin_text(parts: UrlPartsView) -> Seq<char> {
    let host = match parts.host {
        Some(h) => h,
        None => Seq::empty(),
    };
    let port = match parts.port {
        Some(p) => ":"@ + decimal_digits(p as nat),
        None => Seq::empty(),
    };
    parts.scheme + "://"@ + host + port
}

/// The origin of a URL as text.
pub fn origin_of(parts: &UrlParts) -> (r: String)
    ensures
        r@ == origin_text(parts@),
{
    let mut origin = parts.scheme.clone();
    origin.append("://");
    match &parts.host {
        Some(host) => {
            origin.append(host.as_str());
        },
        None => {},
    }
    match parts.port {
        Some(port) => {
            origin.append(":");
            let digits = decimal(port);
            origin.append(digits.as_str());
        },
        None => {},
    }
    origin
}

/// The origin to use for a candidate, and whether the default took the
/// candidate's place.
#[derive(Debug, Clone, PartialEq, Eq)]
pub struct OriginChoice {
    pub origin: String,
    pub substituted: bool,
}

/// The mathematical value of an [`OriginChoice`].
pub struct OriginChoiceView {
    pub origin: Seq<char>,
    pub substituted: bool,
}

impl View for OriginChoice {
    type V = OriginChoiceView;

    open spec fn view(&self) -> OriginChoiceView {
        OriginChoiceView { origin: self.origin@, substituted: self.substituted }
    }
}

/// Whether a candidate origin is accepted: it is a URL, and an acceptable
/// one.
pub open spec fn accepts(parsed: Option<UrlPartsView>, policy: LinkPolicyView) -> bool {
    match parsed {
        Some(parts) => acceptable_origin(parts, policy),
        None => false,
    }
}

/// The choice for a candidate origin as parsed: its own origin, as
/// [`origin_text`] writes it, where it is accepted, else the default of the
/// policy.
pub open spec fn chosen_origin(
    parsed: Option<UrlPartsView>,
    policy: LinkPolicyView,
) -> OriginChoiceView {
    if accepts(parsed, policy) {
        OriginChoiceView { origin: origin_text(parsed->Some_0), substituted: false }
    } else {
        OriginChoiceView { origin: policy.default_origin, substituted: true }
    }
}

/// Decides on a candidate origin that has been parsed already; `None`
/// stands for a candidate that is no URL.
pub fn choose_origin(parsed: &Option<UrlParts>, policy: &LinkPolicy) -> (r: OriginChoice)
    ensures
        r@ == chosen_origin(parts_view(*parsed), policy@),
{
    match parsed {
        Some(parts) => {
            let accepted = match &parts.host {
                Some(host) => {
                    policy.allows_host(host.as_str()) && (str_eq(parts.scheme.as_str(), "https")
                        || (str_eq(parts.scheme.as_str(), "http") && str_eq(
                        host.as_str(),
                        "localhost",
                    )))
                },
                None => false,
            };
            if accepted {
                OriginChoice { origin: origin_of(parts), substituted: false }
            } else {
                OriginChoice { origin: policy.default_origin.clone(), substituted: true }
            }
        },
        None => OriginChoice { origin: policy.default_origin.clone(), substituted: true },
    }
}

/// Decides on the origin that a link names: parses it and chooses as
/// [`choose_origin`] does.
pub fn resolve_origin(candidate: &str, policy: &LinkPolicy) -> (r: OriginChoice)
    ensures
        r@ == chosen_origin(parsed_url(candidate@), policy@),
{
    let parsed = parse_url(candidate);
    choose_origin(&parsed, policy)
}

/// Why a callback link is refused.
#[derive(Debug, Clone, PartialEq, Eq)]
pub enum AuthErrorReason {
    /// The link carries a token that is not well formed.
    InvalidTokenFormat,
    /// The link carries neither a token nor a reason for its absence.
    MissingToken,
    /// The link does not carry both tokens of the credential.
    MissingTokens,
    /// The link is addressed to the login endpoint but is no URL.
    InvalidUrl,
    /// The reason that the link itself gives.
    Reported(String),
}

/// The mathematical value of an [`AuthErrorReason`].
pub enum AuthErrorReasonView {
    InvalidTokenFormat,
    MissingToken,
    MissingTokens,
    InvalidUrl,
    Reported(Seq<char>),
}

impl View for AuthErrorReason {
    type V = AuthErrorReasonView;

    open spec fn view(&self) -> AuthErrorReasonView {
        match self {
            AuthErrorReason::InvalidTokenFormat => AuthErrorReasonView::InvalidTokenFormat,
            AuthErrorReason::MissingToken => AuthErrorReasonView::MissingToken,
            AuthErrorReason::MissingTokens => AuthErrorReasonView::MissingTokens,
            AuthErrorReason::InvalidUrl => AuthErrorReasonView::InvalidUrl,
            AuthErrorReason::Reported(text) => AuthErrorReasonView::Reported(text@),
        }
    }
}

/// What an inbound link turns out to be.
#[derive(Debug, Clone, PartialEq, Eq)]
pub enum CallbackResult {
    /// A login callback with a well-formed token. `origin` is `None` where
    /// the link names none; where it names one that is not acceptable,
    /// `origin` is the default and `origin_rejected` is set, for the caller
    /// to record a warning.
    AuthCallback { token: String, origin: Option<String>, origin_rejected: bool },
    /// A callback that reports or amounts to a failed login.
    AuthError { reason: AuthErrorReason },
    /// Not a link for the login: to be ignored.
    Unknown,
}

/// The mathematical value of a [`CallbackResult`].
pub enum CallbackResultView {
    AuthCallback { token: Seq<char>, origin: Option<Seq<char>>, origin_rejected: bool },
    AuthError { reason: AuthErrorReasonView },
    Unknown,
}

impl View for CallbackResult {
    type V = CallbackResultView;

    open spec fn view(&self) -> CallbackResultView {
        match self {
            CallbackResult::AuthCallback { token, origin, origin_rejected } => {
                CallbackResultView::AuthCallback {
                    token: token@,
                    origin: opt_view(*origin),
                    origin_rejected: *origin_rejected,
                }
            },
            CallbackResult::AuthError { reason } => CallbackResultView::AuthError {
                reason: reason@,
            },
            CallbackResult::Unknown => CallbackResultView::Unknown,
        }
    }
}

/// Whether a path names the login endpoint: after one leading slash, if
/// there is one, it is the endpoint's name or goes on below it.
pub open spec fn path_names_endpoint(path: Seq<char>) -> bool {
    let rest = if path.len() > 0 && path[0] == '/' {
        path.drop_first()
    } else {
        path
    };
    rest == AUTH_ENDPOINT@ || (AUTH_ENDPOINT@ + "/"@).is_prefix_of(rest)
}

/// Whether a URL names the login endpoint: by its host, or by its path
/// where it has no host or an empty one.
pub open spec fn names_endpoint(parts: UrlPartsView) -> bool {
    match parts.host {
        Some(host) if host.len() > 0 => host == AUTH_ENDPOINT@,
        _ => path_names_endpoint(parts.path),
    }
}

/// What a parsed link is. The rules apply in this order: the scheme is the
/// application's, else the link is unknown; the link names the login
/// endpoint, else it is unknown; a token, if there is one, is well formed,
/// else the link is an error; with a token, an origin that the link names
/// is chosen as [`chosen_origin`] says; without a token, the link is an
/// error for the reason that its `reason` or else its `error` parameter
/// gives, or for the missing token. Of a parameter that occurs more than
/// once, the first occurrence counts.
pub open spec fn classify_spec(parts: UrlPartsView, policy: LinkPolicyView) -> CallbackResultView {
    if parts.scheme != APP_SCHEME@ || !names_endpoint(parts) {
        CallbackResultView::Unknown
    } else {
        match first_value(parts.query, "token"@) {
            Some(token) => {
                if !valid_token(token) {
                    CallbackResultView::AuthError {
                        reason: AuthErrorReasonView::InvalidTokenFormat,
                    }
                } else {
                    match first_value(parts.query, "origin"@) {
                        Some(candidate) => {
                            let choice = chosen_origin(parsed_url(candidate), policy);
                            CallbackResultView::AuthCallback {
                                token,
                                origin: Some(choice.origin),
                                origin_rejected: choice.substituted,
                            }
                        },
                        None => CallbackResultView::AuthCallback {
                            token,
                            origin: None,
                            origin_rejected: false,
                        },
                    }
                }
            },
            None => match first_value(parts.query, "reason"@) {
                Some(text) => CallbackResultView::AuthError {
                    reason: AuthErrorReasonView::Reported(text),
                },
                None => match first_value(parts.query, "error"@) {
                    Some(text) => CallbackResultView::AuthError {
                        reason: AuthErrorReasonView::Reported(text),
                    },
                    None => CallbackResultView::AuthError {
                        reason: AuthErrorReasonView::MissingToken,
                    },
                },
            },
        }
    }
}

/// The address of the login endpoint: the application's scheme, `://` and
/// the endpoint's name.
pub open spec fn endpoint_address() -> Seq<char> {
    APP_SCHEME@ + "://"@ + AUTH_ENDPOINT@
}

/// Whether a character ends the host of a URL that has no port and no user
/// information: `/`, `?` or `#`.
pub open spec fn ends_host(c: char) -> bool {
    c == '/' || c == '?' || c == '#'
}

/// Whether a text is addressed to the login endpoint itself: it begins,
/// letter for letter, with the endpoint's address, and the address is
/// followed by the end of the text or by a character that ends the host.
/// Text in which the name goes on, as in a longer host, or in which a
/// colon or an `@` follows, is not addressed to the endpoint.
pub open spec fn addresses_endpoint(url: Seq<char>) -> bool {
    let address = endpoint_address();
    &&& address.is_prefix_of(url)
    &&& (url.len() == address.len() || ends_host(url[address.len() as int]))
}

/// What a link is, from its text and from what the parser made of it: what
/// its parts are where it parsed. Text that did not parse is an error only
/// where it is addressed to the login endpoint itself; any other such text
/// is unknown, whatever its scheme.
pub open spec fn verdict(
    url: Seq<char>,
    parsed: Option<UrlPartsView>,
    policy: LinkPolicyView,
) -> CallbackResultView {
    match parsed {
        Some(parts) => classify_spec(parts, policy),
        None => if addresses_endpoint(url) {
            CallbackResultView::AuthError { reason: AuthErrorReasonView::InvalidUrl }
        } else {
            CallbackResultView::Unknown
        },
    }
}

/// What a link is, as text: its [`verdict`], with what the parser makes of
/// the text.
pub open spec fn validate_spec(url: Seq<char>, policy: LinkPolicyView) -> CallbackResultView {
    verdict(url, parsed_url(url), policy)
}

/// Whether `url` is addressed to the login endpoint itself.
pub fn is_addressed_to_endpoint(url: &str) -> (r: bool)
    ensures
        r == addresses_endpoint(url@),
{
    let mut address = String::from_str(APP_SCHEME);
    address.append("://");
    address.append(AUTH_ENDPOINT);
    if !starts_with(url, address.as_str()) {
        return false;
    }
    let text = chars_of(url);
    let length = chars_of(address.as_str()).len();
    if text.len() == length {
        return true;
    }
    let next = text[length];
    next == '/' || next == '?' || next == '#'
}

/// Whether `path` names the login endpoint.
pub fn path_is_endpoint(path: &str) -> (r: bool)
    ensures
        r == path_names_endpoint(path@),
{
    let chars = chars_of(path);
    let start: usize = if chars.len() > 0 && chars[0] == '/' {
        1
    } else {
        0
    };
    let rest = string_of(&chars, start, chars.len());
    assert(rest@ == if path@.len() > 0 && path@[0] == '/' {
        path@.drop_first()
    } else {
        path@
    });
    let below = join(AUTH_ENDPOINT, "/");
    str_eq(rest.as_str(), AUTH_ENDPOINT) || starts_with(rest.as_str(), below.as_str())
}

/// Whether the URL names the login endpoint.
pub fn is_endpoint(parts: &UrlParts) -> (r: bool)
    ensures
        r == names_endpoint(parts@),
{
    match &parts.host {
        Some(host) => {
            if !host.as_str().is_empty() {
                str_eq(host.as_str(), AUTH_ENDPOINT)
            } else {
                path_is_endpoint(parts.path.as_str())
            }
        },
        None => path_is_endpoint(parts.path.as_str()),
    }
}

/// Classifies a link that has been parsed already.
pub fn classify(parts: &UrlParts, policy: &LinkPolicy) -> (r: CallbackResult)
    ensures
        r@ == classify_spec(parts@, policy@),
{
    if !str_eq(parts.scheme.as_str(), APP_SCHEME) || !is_endpoint(parts) {
        return CallbackResult::Unknown;
    }
    match first_param(&parts.query, "token") {
        Some(token) => {
            if !is_valid_token(token.as_str()) {
                return CallbackResult::AuthError { reason: AuthErrorReason::InvalidTokenFormat };
            }
            match first_param(&parts.query, "origin") {
                Some(candidate) => {
                    let choice = resolve_origin(candidate.as_str(), policy);
                    CallbackResult::AuthCallback {
                        token,
                        origin: Some(choice.origin),
                        origin_rejected: choice.substituted,
                    }
                },
                None => CallbackResult::AuthCallback { token, origin: None, origin_rejected: false },
            }
        },
        None => match first_param(&parts.query, "reason") {
            Some(text) => CallbackResult::AuthError { reason: AuthErrorReason::Reported(text) },
            None => match first_param(&parts.query, "error") {
                Some(text) => CallbackResult::AuthError { reason: AuthErrorReason::Reported(text) },
                None => CallbackResult::AuthError { reason: AuthErrorReason::MissingToken },
            },
        },
    }
}

/// Validates an inbound link of which the parse is at hand: `parsed` is
/// what the parser made of `url`, `None` where it refused the text.
pub fn validate_parsed(url: &str, parsed: &Option<UrlParts>, policy: &LinkPolicy) -> (r:
    CallbackResult)
    ensures
        r@ == verdict(url@, parts_view(*parsed), policy@),
{
    match parsed {
        Some(parts) => classify(parts, policy),
        None => {
            if is_addressed_to_endpoint(url) {
                CallbackResult::AuthError { reason: AuthErrorReason::InvalidUrl }
            } else {
                CallbackResult::Unknown
            }
        },
    }
}

/// Validates an inbound link.
pub fn validate(url: &str, policy: &LinkPolicy) -> (r: CallbackResult)
    ensures
        r@ == validate_spec(url@, policy@),
{
    let parsed = parse_url(url);
    validate_parsed(url, &parsed, policy)
}

/// The address that the browser is sent to for a token: the origin, or the
/// default where there is none, then [`REDIRECT_PATH`] and the token,
/// percent-encoded.
pub open spec fn redirect_url(
    origin: Option<Seq<char>>,
    token: Seq<char>,
    policy: LinkPolicyView,
) -> Seq<char> {
    let base = match origin {
        Some(o) => o,
        None => policy.default_origin,
    };
    base + REDIRECT_PATH@ + percent_encoded(token)
}

/// The address that the browser is sent to after a link: that of its token
/// and origin where the link is a login callback, none otherwise.
pub open spec fn redirect_of(result: CallbackResultView, policy: LinkPolicyView) -> Option<
    Seq<char>,
> {
    match result {
        CallbackResultView::AuthCallback { token, origin, origin_rejected } => Some(
            redirect_url(origin, token, policy),
        ),
        _ => None,
    }
}

impl CallbackResult {
    /// The address to send the browser to, if the link is a login callback.
    pub fn redirect_target(&self, policy: &LinkPolicy) -> (r: Option<String>)
        ensures
            opt_view(r) == redirect_of(self@, policy@),
    {
        match self {
            CallbackResult::AuthCallback { token, origin, origin_rejected } => {
                let mut target = match origin {
                    Some(o) => o.clone(),
                    None => policy.default_origin.clone(),
                };
                target.append(REDIRECT_PATH);
                let encoded = percent_encode(token.as_str());
                target.append(encoded.as_str());
                Some(target)
            },
            _ => None,
        }
    }
}

/// On a link for the login endpoint that carries a token, the token alone
/// decides between acceptance and the error for its format: a well-formed
/// token makes the link a login callback with that token, any other makes
/// it an error for the token's format.
pub proof fn lemma_token_format_decides(
    parts: UrlPartsView,
    policy: LinkPolicyView,
    token: Seq<char>,
)
    requires
        parts.scheme == APP_SCHEME@,
        names_endpoint(parts),
        first_value(parts.query, "token"@) == Some(token),
    ensures
        valid_token(token) ==> classify_spec(parts, policy) is AuthCallback && classify_spec(
            parts,
            policy,
        )->token == token,
        !valid_token(token) ==> classify_spec(parts, policy) == (CallbackResultView::AuthError {
            reason: AuthErrorReasonView::InvalidTokenFormat,
        }),
{
}

/// A candidate origin that is no URL, whose host is not on the allow-list
/// or whose scheme is not allowed is never used: the default takes its
/// place, and the substitution is flagged.
pub proof fn lemma_unacceptable_origin_gives_default(
    parsed: Option<UrlPartsView>,
    policy: LinkPolicyView,
)
    requires
        !accepts(parsed, policy),
    ensures
        chosen_origin(parsed, policy) == (OriginChoiceView {
            origin: policy.default_origin,
            substituted: true,
        }),
{
}

/// On a callback that names an origin, the origin decides where the
/// browser goes. Where it is not accepted, the callback carries the
/// default origin, flagged as a rejection, and the browser is sent to the
/// default origin with the token. Where it is accepted, the callback
/// carries the origin of the candidate as text, and the browser is sent
/// there.
pub proof fn lemma_origin_decides_redirect(
    parts: UrlPartsView,
    policy: LinkPolicyView,
    token: Seq<char>,
    candidate: Seq<char>,
)
    requires
        parts.scheme == APP_SCHEME@,
        names_endpoint(parts),
        first_value(parts.query, "token"@) == Some(token),
        valid_token(token),
        first_value(parts.query, "origin"@) == Some(candidate),
    ensures
        !accepts(parsed_url(candidate), policy) ==> {
            &&& classify_spec(parts, policy) == (CallbackResultView::AuthCallback {
                token,
                origin: Some(policy.default_origin),
                origin_rejected: true,
            })
            &&& redirect_of(classify_spec(parts, policy), policy) == Some(
                policy.default_origin + REDIRECT_PATH@ + token,
            )
        },
        accepts(parsed_url(candidate), policy) ==> {
            &&& classify_spec(parts, policy) == (CallbackResultView::AuthCallback {
                token,
                origin: Some(origin_text(parsed_url(candidate)->Some_0)),
                origin_rejected: false,
            })
            &&& redirect_of(classify_spec(parts, policy), policy) == Some(
                origin_text(parsed_url(candidate)->Some_0) + REDIRECT_PATH@ + token,
            )
        },
{
    lemma_valid_token_encodes_to_itself(token);
}

/// A callback with a well-formed token and no origin sends the browser to
/// the default origin, with the token as it stands.
pub proof fn lemma_no_origin_redirects_to_default(
    parts: UrlPartsView,
    policy: LinkPolicyView,
    token: Seq<char>,
)
    requires
        parts.scheme == APP_SCHEME@,
        names_endpoint(parts),
        first_value(parts.query, "token"@) == Some(token),
        valid_token(token),
        first_value(parts.query, "origin"@) is None,
    ensures
        classify_spec(parts, policy) == (CallbackResultView::AuthCallback {
            token,
            origin: None,
            origin_rejected: false,
        }),
        redirect_of(classify_spec(parts, policy), policy) == Some(
            policy.default_origin + REDIRECT_PATH@ + token,
        ),
{
    lemma_valid_token_encodes_to_itself(token);
}

/// The token of a login callback is well formed: a link with any other
/// token is no login callback.
pub proof fn lemma_callback_token_is_valid(parts: UrlPartsView, policy: LinkPolicyView)
    requires
        classify_spec(parts, policy) is AuthCallback,
    ensures
        valid_token(classify_spec(parts, policy)->token),
        first_value(parts.query, "token"@) == Some(classify_spec(parts, policy)->token),
{
}

/// The origin of a login callback, where it has one, is the default of the
/// policy or the origin, as text, of a URL that the policy accepts; and
/// it is flagged as rejected only where it is the default.
pub proof fn lemma_callback_origin_is_safe(parts: UrlPartsView, policy: LinkPolicyView)
    requires
        classify_spec(parts, policy) is AuthCallback,
        classify_spec(parts, policy)->origin is Some,
    ensures
        ({
            let result = classify_spec(parts, policy);
            let origin = result->origin->Some_0;
            if result->origin_rejected {
                origin == policy.default_origin
            } else {
                exists|accepted: UrlPartsView|
                    acceptable_origin(accepted, policy) && origin_text(accepted) == origin
            }
        }),
{
}

/// On a link for the login endpoint without a token, the `reason`
/// parameter is reported where there is one, whatever the `error`
/// parameter says; the `error` parameter is reported only where there is no
/// `reason`.
pub proof fn lemma_reason_comes_before_error(parts: UrlPartsView, policy: LinkPolicyView)
    requires
        parts.scheme == APP_SCHEME@,
        names_endpoint(parts),
        first_value(parts.query, "token"@) is None,
    ensures
        classify_spec(parts, policy) == (CallbackResultView::AuthError {
            reason: match first_value(parts.query, "reason"@) {
                Some(text) => AuthErrorReasonView::Reported(text),
                None => match first_value(parts.query, "error"@) {
                    Some(text) => AuthErrorReasonView::Reported(text),
                    None => AuthErrorReasonView::MissingToken,
                },
            },
        }),
{
}

/// A link is reported as an invalid URL only where its text is addressed
/// to the login endpoint itself and did not parse; text that is not so
/// addressed and did not parse is unknown.
pub proof fn lemma_invalid_url_addresses_the_endpoint(
    url: Seq<char>,
    parsed: Option<UrlPartsView>,
    policy: LinkPolicyView,
)
    ensures
        verdict(url, parsed, policy) == (CallbackResultView::AuthError {
            reason: AuthErrorReasonView::InvalidUrl,
        }) <==> parsed is None && addresses_endpoint(url),
        parsed is None && !addresses_endpoint(url) ==> verdict(url, parsed, policy)
            == CallbackResultView::Unknown,
{
}

/// A link whose host is not the login endpoint is ignored, whatever else
/// it holds.
pub proof fn lemma_another_host_is_ignored(parts: UrlPartsView, policy: LinkPolicyView)
    requires
        parts.host is Some,
        parts.host->Some_0.len() > 0,
        parts.host->Some_0 != AUTH_ENDPOINT@,
    ensures
        classify_spec(parts, policy) == CallbackResultView::Unknown,
{
}

/// Text that did not parse and in which the endpoint's address goes on
/// with anything but `/`, `?` or `#` is ignored: a longer host, a port or
/// user information after the name never makes a failed login.
pub proof fn lemma_unparsed_text_beyond_the_endpoint_is_ignored(
    rest: Seq<char>,
    policy: LinkPolicyView,
)
    requires
        rest.len() > 0,
        !ends_host(rest[0]),
    ensures
        verdict(endpoint_address() + rest, None, policy) == CallbackResultView::Unknown,
{
    let url = endpoint_address() + rest;
    assert(url[endpoint_address().len() as int] == rest[0]);
}

} // verus!

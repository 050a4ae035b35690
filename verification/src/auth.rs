//! The login session: how a login is started, what an inbound callback
//! leads to, and what the outcomes of the keychain and of the refresh
//! endpoint mean.
//!
//! The keychain and the network are reached by the shell around the
//! library. Each function here takes what the shell found and decides what
//! it means, or says what the shell is to do next.

use vstd::prelude::*;
use vstd::string::*;
use crate::deep_link::{
    addresses_endpoint, classify, classify_spec, first_value, is_addressed_to_endpoint,
    last_param, last_value, lemma_no_origin_redirects_to_default, names_endpoint, redirect_url,
    valid_token, verdict, AuthErrorReason, AuthErrorReasonView, CallbackResult,
    CallbackResultView, LinkPolicy, LinkPolicyView, APP_SCHEME, REDIRECT_PATH,
};
use crate::text::{
    decimal, decimal_digits, first_chars, join, opt_view, prefix_before, take_before,
};
use crate::url_parts::{parse_url, parsed_url, parts_view, UrlParts, UrlPartsView};

verus! {

/// The name under which the keychain holds the application's secrets.
pub const SERVICE_NAME: &'static str = "hackerai-desktop";

/// The keychain entry that holds the credential.
pub const TOKENS_KEY: &'static str = "auth-tokens";

/// The site that serves the login where the caller names none.
pub const DEFAULT_BASE_URL: &'static str = "https://hackerai.co";

/// What follows the base URL in the address that starts a login.
pub const LOGIN_PATH: &'static str = "/login?state=";

/// What follows the base URL in the address of the refresh endpoint.
pub const REFRESH_PATH: &'static str = "/refresh";

/// The event that reports a completed login.
pub const AUTH_SUCCESS_EVENT: &'static str = "auth-success";

/// The event that reports a failed login.
pub const AUTH_ERROR_EVENT: &'static str = "auth-error";

/// How many characters of a token a log line may show.
pub const VISIBLE_TOKEN_CHARS: usize = 8;

/// The credential of a session.
#[derive(Debug, Clone, PartialEq, Eq)]
pub struct AuthTokens {
    pub access_token: String,
    pub refresh_token: String,
}

/// The mathematical value of an [`AuthTokens`].
pub struct AuthTokensView {
    pub access_token: Seq<char>,
    pub refresh_token: Seq<char>,
}

impl View for AuthTokens {
    type V = AuthTokensView;

    open spec fn view(&self) -> AuthTokensView {
        AuthTokensView { access_token: self.access_token@, refresh_token: self.refresh_token@ }
    }
}

/// A login that has been started: the state that identifies it and the
/// address to open in the browser.
#[derive(Debug, Clone, PartialEq, Eq)]
pub struct LoginInitiated {
    pub state: String,
    pub url: String,
}

/// Whether a credential is stored. Both fields say the same: presence, not
/// validity.
#[derive(Debug, Clone, Copy, PartialEq, Eq, Structural)]
pub struct AuthStatus {
    pub authenticated: bool,
    pub has_tokens: bool,
}

/// Why an operation of the session failed.
#[derive(Debug, Clone, PartialEq, Eq)]
pub enum AuthError {
    /// The keychain could not be reached or refused the operation.
    Storage(String),
    /// The credential could not be written as text for the keychain.
    Serialization(String),
    /// The keychain entry holds text that is no credential.
    TokenParse(String),
    /// The refresh endpoint answered with success and a body that is no
    /// credential.
    Parse(String),
    /// The refresh endpoint could not be reached.
    Network(String),
    /// The refresh endpoint answered with a status outside 200 to 299.
    Http { status: u16, body: String },
}

/// The mathematical value of an [`AuthError`].
pub enum AuthErrorView {
    Storage(Seq<char>),
    Serialization(Seq<char>),
    TokenParse(Seq<char>),
    Parse(Seq<char>),
    Network(Seq<char>),
    Http { status: u16, body: Seq<char> },
}

impl View for AuthError {
    type V = AuthErrorView;

    open spec fn view(&self) -> AuthErrorView {
        match self {
            AuthError::Storage(detail) => AuthErrorView::Storage(detail@),
            AuthError::Serialization(detail) => AuthErrorView::Serialization(detail@),
            AuthError::TokenParse(detail) => AuthErrorView::TokenParse(detail@),
            AuthError::Parse(detail) => AuthErrorView::Parse(detail@),
            AuthError::Network(detail) => AuthErrorView::Network(detail@),
            AuthError::Http { status, body } => AuthErrorView::Http {
                status: *status,
                body: body@,
            },
        }
    }
}

/// The phrase that `reqwest::StatusCode::canonical_reason` gives for a
/// status, or `None` where it gives none or the number is no status code.
pub uninterp spec fn canonical_reason(status: u16) -> Option<Seq<char>>;

/// The phrase of a status from `reqwest::StatusCode`: `from_u16` makes the
/// status code, `canonical_reason` looks the phrase up in its table. The
/// result is `canonical_reason` of the number, `None` where `from_u16`
/// refuses the number or the table holds no phrase for it.
#[verifier::external_body]
fn reason_phrase(status: u16) -> (r: Option<String>)
    ensures
        opt_view(r) == canonical_reason(status),
{
    match reqwest::StatusCode::from_u16(status) {
        Ok(code) => code.canonical_reason().map(|phrase| phrase.to_string()),
        Err(_) => None,
    }
}

/// A status as a line of text shows it: its number, a space, and its
/// phrase, or `<unknown status code>` where it has none.
pub open spec fn status_text(status: u16, phrase: Option<Seq<char>>) -> Seq<char> {
    decimal_digits(status as nat) + " "@ + match phrase {
        Some(text) => text,
        None => "<unknown status code>"@,
    }
}

/// A status as a line of text shows it, from its number and its phrase.
pub fn status_line(status: u16, phrase: Option<String>) -> (r: String)
    ensures
        r@ == status_text(status, opt_view(phrase)),
{
    let mut line = decimal(status);
    line.append(" ");
    match phrase {
        Some(text) => {
            line.append(text.as_str());
        },
        None => {
            line.append("<unknown status code>");
        },
    }
    line
}

/// The line that describes an error to the user.
pub open spec fn error_message(error: AuthErrorView) -> Seq<char> {
    match error {
        AuthErrorView::Storage(detail) => "Keyring error: "@ + detail,
        AuthErrorView::Serialization(detail) => "Serialization error: "@ + detail,
        AuthErrorView::TokenParse(detail) => "Token parse error: "@ + detail,
        AuthErrorView::Parse(detail) => "Parse error: "@ + detail,
        AuthErrorView::Network(detail) => "Network error: "@ + detail,
        AuthErrorView::Http { status, body } => "Refresh failed: HTTP "@ + status_text(
            status,
            canonical_reason(status),
        ),
    }
}

impl AuthError {
    /// The line that describes the error to the user.
    pub fn message(&self) -> (r: String)
        ensures
            r@ == error_message(self@),
    {
        match self {
            AuthError::Storage(detail) => join("Keyring error: ", detail.as_str()),
            AuthError::Serialization(detail) => join("Serialization error: ", detail.as_str()),
            AuthError::TokenParse(detail) => join("Token parse error: ", detail.as_str()),
            AuthError::Parse(detail) => join("Parse error: ", detail.as_str()),
            AuthError::Network(detail) => join("Network error: ", detail.as_str()),
            AuthError::Http { status, body } => {
                let line = status_line(*status, reason_phrase(*status));
                join("Refresh failed: HTTP ", line.as_str())
            },
        }
    }
}

/// The line that describes the reason of a refused callback.
pub open spec fn reason_message(reason: AuthErrorReasonView) -> Seq<char> {
    match reason {
        AuthErrorReasonView::InvalidTokenFormat => "Invalid token format"@,
        AuthErrorReasonView::MissingToken => "Missing token in callback"@,
        AuthErrorReasonView::MissingTokens => "Missing tokens in callback"@,
        AuthErrorReasonView::InvalidUrl => "Invalid callback URL"@,
        AuthErrorReasonView::Reported(text) => text,
    }
}

/// The line that describes the reason of a refused callback.
pub fn reason_text(reason: &AuthErrorReason) -> (r: String)
    ensures
        r@ == reason_message(reason@),
{
    match reason {
        AuthErrorReason::InvalidTokenFormat => String::from_str("Invalid token format"),
        AuthErrorReason::MissingToken => String::from_str("Missing token in callback"),
        AuthErrorReason::MissingTokens => String::from_str("Missing tokens in callback"),
        AuthErrorReason::InvalidUrl => String::from_str("Invalid callback URL"),
        AuthErrorReason::Reported(text) => text.clone(),
    }
}

/// The part of a token that a log line may show: its first
/// [`VISIBLE_TOKEN_CHARS`] characters, or all of it where it is shorter.
pub fn redact(token: &str) -> (r: String)
    ensures
        r@ == token@.take(
            if token@.len() >= VISIBLE_TOKEN_CHARS {
                VISIBLE_TOKEN_CHARS as int
            } else {
                token@.len() as int
            },
        ),
{
    first_chars(token, VISIBLE_TOKEN_CHARS)
}

/// What a log line shows of the login state that a callback gives back: its
/// first [`VISIBLE_TOKEN_CHARS`] characters, or `none` where the callback
/// gives none.
pub fn state_for_log(state: &Option<String>) -> (r: String)
    ensures
        r@ == match state {
            Some(text) => text@.take(
                if text@.len() >= VISIBLE_TOKEN_CHARS {
                    VISIBLE_TOKEN_CHARS as int
                } else {
                    text@.len() as int
                },
            ),
            None => "none"@,
        },
{
    match state {
        Some(text) => redact(text.as_str()),
        None => String::from_str("none"),
    }
}

/// How many characters of a link a log line may show.
pub const VISIBLE_LINK_CHARS: usize = 50;

/// The part of a link that a log line may show: what comes before its
/// query and its fragment, where the tokens are, and of that the first
/// [`VISIBLE_LINK_CHARS`] characters at most.
pub open spec fn loggable_link(url: Seq<char>) -> Seq<char> {
    let address = prefix_before(prefix_before(url, '?'), '#');
    address.take(
        if address.len() >= VISIBLE_LINK_CHARS {
            VISIBLE_LINK_CHARS as int
        } else {
            address.len() as int
        },
    )
}

/// The part of a link that a log line may show.
pub fn link_for_log(url: &str) -> (r: String)
    ensures
        r@ == loggable_link(url@),
{
    let before_query = take_before(url, '?');
    let address = take_before(before_query.as_str(), '#');
    first_chars(address.as_str(), VISIBLE_LINK_CHARS)
}

/// The mathematical value of a [`LoginInitiated`].
pub struct LoginInitiatedView {
    pub state: Seq<char>,
    pub url: Seq<char>,
}

impl View for LoginInitiated {
    type V = LoginInitiatedView;

    open spec fn view(&self) -> LoginInitiatedView {
        LoginInitiatedView { state: self.state@, url: self.url@ }
    }
}

/// Whether `c` is a decimal digit or one of the letters `a` to `f`.
pub open spec fn is_lower_hex(c: char) -> bool {
    ('0' <= c && c <= '9') || ('a' <= c && c <= 'f')
}

/// The shape of a login state: thirty-six characters, hyphens at the
/// four places that part the groups of 8, 4, 4, 4 and 12, and lower-case
/// hexadecimal digits everywhere else; the third group begins with `4`,
/// the mark of a random identifier, and the fourth with `8`, `9`, `a` or
/// `b`.
pub open spec fn is_state_id(s: Seq<char>) -> bool {
    &&& s.len() == 36
    &&& forall|i: int|
        0 <= i < 36 ==> if i == 8 || i == 13 || i == 18 || i == 23 {
            #[trigger] s[i] == '-'
        } else {
            is_lower_hex(s[i])
        }
    &&& s[14] == '4'
    &&& (s[19] == '8' || s[19] == '9' || s[19] == 'a' || s[19] == 'b')
}

/// The address that starts a login: the base URL, or the default where
/// there is none, then [`LOGIN_PATH`] and the state.
pub open spec fn login_url(base_url: Option<Seq<char>>, state: Seq<char>) -> Seq<char> {
    let base = match base_url {
        Some(b) => b,
        None => DEFAULT_BASE_URL@,
    };
    base + LOGIN_PATH@ + state
}

/// The address of the refresh endpoint: the base URL, or the default where
/// there is none, then [`REFRESH_PATH`].
pub open spec fn refresh_endpoint(base_url: Option<Seq<char>>) -> Seq<char> {
    let base = match base_url {
        Some(b) => b,
        None => DEFAULT_BASE_URL@,
    };
    base + REFRESH_PATH@
}

/// A fresh random identifier from `uuid::Uuid::new_v4`, as its `Display`
/// writes it. Which identifier comes back is left open; every one has the
/// hyphenated lower-case shape that [`is_state_id`] describes, with the
/// version and variant digits that `new_v4` sets. The call panics where
/// the operating system cannot supply random bytes.
#[verifier::external_body]
fn fresh_state() -> (s: String)
    ensures
        is_state_id(s@),
{
    uuid::Uuid::new_v4().to_string()
}

/// The login that goes with a given state.
pub fn login_request(state: String, base_url: Option<String>) -> (r: LoginInitiated)
    ensures
        r@ == (LoginInitiatedView {
            state: state@,
            url: login_url(opt_view(base_url), state@),
        }),
{
    let mut url = match base_url {
        Some(base) => base,
        None => String::from_str(DEFAULT_BASE_URL),
    };
    url.append(LOGIN_PATH);
    url.append(state.as_str());
    LoginInitiated { state, url }
}

/// Starts a login: draws a fresh random state and builds the address to
/// open in the browser. The state is not kept: the caller holds it.
pub fn start_login(base_url: Option<String>) -> (r: Result<LoginInitiated, String>)
    ensures
        r is Ok,
        is_state_id(r->Ok_0@.state),
        r->Ok_0@.url == login_url(opt_view(base_url), r->Ok_0@.state),
{
    let state = fresh_state();
    Ok(login_request(state, base_url))
}

/// What a read of the keychain entry found.
#[derive(Debug, Clone, PartialEq, Eq)]
pub enum StoreRead {
    /// The entry holds this credential.
    Found(AuthTokens),
    /// There is no entry.
    Missing,
    /// The entry holds text that is no credential.
    Malformed(String),
    /// The keychain could not be read.
    Failed(String),
}

/// How a write of the keychain entry ended.
#[derive(Debug, Clone, PartialEq, Eq)]
pub enum StoreWrite {
    /// The entry now holds the credential.
    Written,
    /// The credential could not be written as text; the keychain was not
    /// asked.
    Unserializable(String),
    /// The keychain gave no entry to write to.
    Unavailable(String),
    /// The keychain refused the write.
    Refused(String),
}

/// How a removal of the keychain entry ended.
#[derive(Debug, Clone, PartialEq, Eq)]
pub enum StoreDelete {
    /// The entry was there and is gone.
    Deleted,
    /// There was no entry.
    Missing,
    /// The keychain could not be reached or refused.
    Failed(String),
}

/// What a read of the keychain means: the credential found, none where
/// the entry is missing, a token parse error where the entry is malformed,
/// and a storage error where the keychain failed.
pub open spec fn stored_tokens(read: StoreRead) -> Result<Option<AuthTokens>, AuthError> {
    match read {
        StoreRead::Found(tokens) => Ok(Some(tokens)),
        StoreRead::Missing => Ok(None),
        StoreRead::Malformed(detail) => Err(AuthError::TokenParse(detail)),
        StoreRead::Failed(detail) => Err(AuthError::Storage(detail)),
    }
}

/// The stored credential, from what a read of the keychain found.
pub fn get_stored_tokens(read: StoreRead) -> (r: Result<Option<AuthTokens>, AuthError>)
    ensures
        r == stored_tokens(read),
{
    match read {
        StoreRead::Found(tokens) => Ok(Some(tokens)),
        StoreRead::Missing => Ok(None),
        StoreRead::Malformed(detail) => Err(AuthError::TokenParse(detail)),
        StoreRead::Failed(detail) => Err(AuthError::Storage(detail)),
    }
}

/// What a write of the keychain means: success where the entry was
/// written, a serialisation error where the credential could not be
/// written as text, and a storage error otherwise.
pub open spec fn store_result(write: StoreWrite) -> Result<(), AuthError> {
    match write {
        StoreWrite::Written => Ok(()),
        StoreWrite::Unserializable(detail) => Err(AuthError::Serialization(detail)),
        StoreWrite::Unavailable(detail) => Err(AuthError::Storage(detail)),
        StoreWrite::Refused(detail) => Err(AuthError::Storage(detail)),
    }
}

/// Whether the credential is stored, from how the write ended.
pub fn store_tokens(write: StoreWrite) -> (r: Result<(), AuthError>)
    ensures
        r == store_result(write),
{
    match write {
        StoreWrite::Written => Ok(()),
        StoreWrite::Unserializable(detail) => Err(AuthError::Serialization(detail)),
        StoreWrite::Unavailable(detail) => Err(AuthError::Storage(detail)),
        StoreWrite::Refused(detail) => Err(AuthError::Storage(detail)),
    }
}

/// Ends the session. The removal of the credential may have found nothing
/// to remove, or may have failed: the logout succeeds all the same, so a
/// second logout after a first never fails.
pub fn logout(delete: StoreDelete) -> (r: Result<(), AuthError>)
    ensures
        r is Ok,
{
    Ok(())
}

/// The status that goes with a read of the keychain: both fields say
/// whether a credential was found, and a read that failed is an error.
pub open spec fn auth_status(read: StoreRead) -> Result<AuthStatus, AuthError> {
    match stored_tokens(read) {
        Ok(tokens) => Ok(AuthStatus { authenticated: tokens is Some, has_tokens: tokens is Some }),
        Err(error) => Err(error),
    }
}

/// The status of the session, from what a read of the keychain found.
pub fn get_auth_status(read: StoreRead) -> (r: Result<AuthStatus, AuthError>)
    ensures
        r == auth_status(read),
{
    match get_stored_tokens(read) {
        Ok(tokens) => {
            let present = tokens.is_some();
            Ok(AuthStatus { authenticated: present, has_tokens: present })
        },
        Err(error) => Err(error),
    }
}

/// What a request to the refresh endpoint came to.
#[derive(Debug, PartialEq, Eq)]
pub enum RefreshReply {
    /// The request did not reach the endpoint.
    Unreachable(String),
    /// The endpoint answered. `decoded` is what the body holds as a
    /// credential, or why it holds none.
    Answered { status: u16, body: String, decoded: Result<AuthTokens, String> },
}

/// Whether a status is one of success: 200 to 299.
pub open spec fn is_success(status: u16) -> bool {
    200 <= status && status <= 299
}

/// What a reply of the refresh endpoint means: a network error where the
/// endpoint was not reached; the status and the body where the status is
/// not one of success; else the credential that the body holds, or a parse
/// error where it holds none.
pub open spec fn refresh_result(reply: RefreshReply) -> Result<AuthTokens, AuthError> {
    match reply {
        RefreshReply::Unreachable(detail) => Err(AuthError::Network(detail)),
        RefreshReply::Answered { status, body, decoded } => {
            if !is_success(status) {
                Err(AuthError::Http { status, body })
            } else {
                match decoded {
                    Ok(tokens) => Ok(tokens),
                    Err(detail) => Err(AuthError::Parse(detail)),
                }
            }
        },
    }
}

/// The address to send a refresh request to.
pub fn refresh_url(base_url: Option<String>) -> (r: String)
    ensures
        r@ == refresh_endpoint(opt_view(base_url)),
{
    let mut url = match base_url {
        Some(base) => base,
        None => String::from_str(DEFAULT_BASE_URL),
    };
    url.append(REFRESH_PATH);
    url
}

/// The new credential, from what the refresh endpoint replied. The caller
/// stores it, and hands it on once [`confirm_refresh`] agrees.
pub fn refresh_tokens(reply: RefreshReply) -> (r: Result<AuthTokens, AuthError>)
    ensures
        r == refresh_result(reply),
{
    match reply {
        RefreshReply::Unreachable(detail) => Err(AuthError::Network(detail)),
        RefreshReply::Answered { status, body, decoded } => {
            if status < 200 || status > 299 {
                Err(AuthError::Http { status, body })
            } else {
                match decoded {
                    Ok(tokens) => Ok(tokens),
                    Err(detail) => Err(AuthError::Parse(detail)),
                }
            }
        },
    }
}

/// The outcome of a refresh once the new credential went to the keychain:
/// the credential where it was stored, the storage error where it was not.
pub fn confirm_refresh(tokens: AuthTokens, write: StoreWrite) -> (r: Result<AuthTokens, AuthError>)
    ensures
        r == match store_result(write) {
            Ok(_) => Ok::<AuthTokens, AuthError>(tokens),
            Err(error) => Err(error),
        },
{
    match store_tokens(write) {
        Ok(_) => Ok(tokens),
        Err(error) => Err(error),
    }
}

/// What the shell is to do for an inbound link.
#[derive(Debug, Clone, PartialEq, Eq)]
pub enum DeepLinkAction {
    /// Nothing: the link is not for the login.
    Ignore,
    /// Report the failed login; the keychain is left as it is.
    Reject { reason: AuthErrorReason },
    /// Store the credential and report as [`stored_event`] says; `redirect`
    /// is the address that the browser goes back to, `origin_rejected`
    /// asks for a warning that the link named an origin that was refused,
    /// and `state` is the login state that the link gives back, if any.
    Accept { tokens: AuthTokens, redirect: String, origin_rejected: bool, state: Option<String> },
}

/// The mathematical value of a [`DeepLinkAction`].
pub enum DeepLinkActionView {
    Ignore,
    Reject { reason: AuthErrorReasonView },
    Accept {
        tokens: AuthTokensView,
        redirect: Seq<char>,
        origin_rejected: bool,
        state: Option<Seq<char>>,
    },
}

impl View for DeepLinkAction {
    type V = DeepLinkActionView;

    open spec fn view(&self) -> DeepLinkActionView {
        match self {
            DeepLinkAction::Ignore => DeepLinkActionView::Ignore,
            DeepLinkAction::Reject { reason } => DeepLinkActionView::Reject { reason: reason@ },
            DeepLinkAction::Accept { tokens, redirect, origin_rejected, state } => {
                DeepLinkActionView::Accept {
                    tokens: tokens@,
                    redirect: redirect@,
                    origin_rejected: *origin_rejected,
                    state: opt_view(*state),
                }
            },
        }
    }
}

/// What a parsed link leads to. A link that is unknown is ignored, one
/// that is an error is rejected for its reason. A login callback is
/// accepted where the link carries both an `access_token` and a
/// `refresh_token`, which make the credential, and rejected for the
/// missing tokens where it does not. Of these two parameters and of
/// `state`, the last occurrence counts.
pub open spec fn callback_action(parts: UrlPartsView, policy: LinkPolicyView) -> DeepLinkActionView {
    match classify_spec(parts, policy) {
        CallbackResultView::Unknown => DeepLinkActionView::Ignore,
        CallbackResultView::AuthError { reason } => DeepLinkActionView::Reject { reason },
        CallbackResultView::AuthCallback { token, origin, origin_rejected } => {
            match (
                last_value(parts.query, "access_token"@),
                last_value(parts.query, "refresh_token"@),
            ) {
                (Some(access_token), Some(refresh_token)) => DeepLinkActionView::Accept {
                    tokens: AuthTokensView { access_token, refresh_token },
                    redirect: redirect_url(origin, token, policy),
                    origin_rejected,
                    state: last_value(parts.query, "state"@),
                },
                _ => DeepLinkActionView::Reject { reason: AuthErrorReasonView::MissingTokens },
            }
        },
    }
}

/// What a link leads to, from its text and from what the parser made of
/// it: what its parts lead to where it parsed. Text that did not parse is
/// rejected only where it is addressed to the login endpoint itself; any
/// other such text is ignored.
pub open spec fn link_action(
    url: Seq<char>,
    parsed: Option<UrlPartsView>,
    policy: LinkPolicyView,
) -> DeepLinkActionView {
    match parsed {
        Some(parts) => callback_action(parts, policy),
        None => if addresses_endpoint(url) {
            DeepLinkActionView::Reject { reason: AuthErrorReasonView::InvalidUrl }
        } else {
            DeepLinkActionView::Ignore
        },
    }
}

/// What a link leads to, as text: its [`link_action`], with what the
/// parser makes of the text.
pub open spec fn deep_link_action(url: Seq<char>, policy: LinkPolicyView) -> DeepLinkActionView {
    link_action(url, parsed_url(url), policy)
}

/// Decides what to do for a link that has been parsed already.
pub fn complete_callback(parts: &UrlParts, policy: &LinkPolicy) -> (r: DeepLinkAction)
    ensures
        r@ == callback_action(parts@, policy@),
{
    let result = classify(parts, policy);
    let redirect = result.redirect_target(policy);
    match result {
        CallbackResult::Unknown => DeepLinkAction::Ignore,
        CallbackResult::AuthError { reason } => DeepLinkAction::Reject { reason },
        CallbackResult::AuthCallback { token, origin, origin_rejected } => {
            let access = last_param(&parts.query, "access_token");
            let refresh = last_param(&parts.query, "refresh_token");
            match (access, refresh, redirect) {
                (Some(access_token), Some(refresh_token), Some(redirect)) => {
                    DeepLinkAction::Accept {
                        tokens: AuthTokens { access_token, refresh_token },
                        redirect,
                        origin_rejected,
                        state: last_param(&parts.query, "state"),
                    }
                },
                _ => DeepLinkAction::Reject { reason: AuthErrorReason::MissingTokens },
            }
        },
    }
}

/// Decides what to do for an inbound link of which the parse is at hand:
/// `parsed` is what the parser made of `url`, `None` where it refused the
/// text.
pub fn handle_parsed_link(url: &str, parsed: &Option<UrlParts>, policy: &LinkPolicy) -> (r:
    DeepLinkAction)
    ensures
        r@ == link_action(url@, parts_view(*parsed), policy@),
{
    match parsed {
        Some(parts) => complete_callback(parts, policy),
        None => {
            if is_addressed_to_endpoint(url) {
                DeepLinkAction::Reject { reason: AuthErrorReason::InvalidUrl }
            } else {
                DeepLinkAction::Ignore
            }
        },
    }
}

/// Decides what to do for an inbound link.
pub fn handle_deep_link(url: &str, policy: &LinkPolicy) -> (r: DeepLinkAction)
    ensures
        r@ == deep_link_action(url@, policy@),
{
    let parsed = parse_url(url);
    handle_parsed_link(url, &parsed, policy)
}

/// What the presentation layer is told of a login.
#[derive(Debug, Clone, PartialEq, Eq)]
pub enum AuthEvent {
    /// The login succeeded, with this credential.
    Success(AuthTokens),
    /// The login failed, for this reason.
    Error(String),
}

/// The mathematical value of an [`AuthEvent`].
pub enum AuthEventView {
    Success(AuthTokensView),
    Error(Seq<char>),
}

impl View for AuthEvent {
    type V = AuthEventView;

    open spec fn view(&self) -> AuthEventView {
        match self {
            AuthEvent::Success(tokens) => AuthEventView::Success(tokens@),
            AuthEvent::Error(reason) => AuthEventView::Error(reason@),
        }
    }
}

/// The event that follows an accepted callback once its credential went to
/// the keychain: success with the credential where it was stored, and in
/// no other case; else an error that names the failure.
pub open spec fn event_after_store(tokens: AuthTokensView, write: StoreWrite) -> AuthEventView {
    match write {
        StoreWrite::Written => AuthEventView::Success(tokens),
        StoreWrite::Unserializable(detail) => AuthEventView::Error(
            "Serialization error: "@ + detail@,
        ),
        StoreWrite::Unavailable(detail) => AuthEventView::Error("Keyring error: "@ + detail@),
        StoreWrite::Refused(detail) => AuthEventView::Error("Failed to store tokens: "@ + detail@),
    }
}

impl AuthEvent {
    /// The name under which the event is emitted.
    pub fn name(&self) -> (r: &'static str)
        ensures
            r@ == match self {
                AuthEvent::Success(_) => AUTH_SUCCESS_EVENT@,
                AuthEvent::Error(_) => AUTH_ERROR_EVENT@,
            },
    {
        match self {
            AuthEvent::Success(_) => AUTH_SUCCESS_EVENT,
            AuthEvent::Error(_) => AUTH_ERROR_EVENT,
        }
    }
}

/// The event that reports a rejected callback.
pub fn rejected_event(reason: &AuthErrorReason) -> (r: AuthEvent)
    ensures
        r@ == AuthEventView::Error(reason_message(reason@)),
{
    AuthEvent::Error(reason_text(reason))
}

/// The event that follows an accepted callback, from how the write of its
/// credential ended.
pub fn stored_event(tokens: AuthTokens, write: StoreWrite) -> (r: AuthEvent)
    ensures
        r@ == event_after_store(tokens@, write),
{
    match write {
        StoreWrite::Written => AuthEvent::Success(tokens),
        StoreWrite::Unserializable(detail) => AuthEvent::Error(
            join("Serialization error: ", detail.as_str()),
        ),
        StoreWrite::Unavailable(detail) => AuthEvent::Error(
            join("Keyring error: ", detail.as_str()),
        ),
        StoreWrite::Refused(detail) => AuthEvent::Error(
            join("Failed to store tokens: ", detail.as_str()),
        ),
    }
}

/// A callback with a well-formed token, no origin and both tokens of the
/// credential is accepted, and sends the browser to the default origin
/// with the token as it stands.
pub proof fn lemma_callback_without_origin_goes_to_default(
    parts: UrlPartsView,
    policy: LinkPolicyView,
    token: Seq<char>,
    tokens: AuthTokensView,
)
    requires
        parts.scheme == APP_SCHEME@,
        names_endpoint(parts),
        first_value(parts.query, "token"@) == Some(token),
        valid_token(token),
        first_value(parts.query, "origin"@) is None,
        last_value(parts.query, "access_token"@) == Some(tokens.access_token),
        last_value(parts.query, "refresh_token"@) == Some(tokens.refresh_token),
    ensures
        callback_action(parts, policy) == (DeepLinkActionView::Accept {
            tokens,
            redirect: policy.default_origin + REDIRECT_PATH@ + token,
            origin_rejected: false,
            state: last_value(parts.query, "state"@),
        }),
{
    lemma_no_origin_redirects_to_default(parts, policy, token);
}

/// A credential is stored only for a login callback that carries both of
/// its tokens: every other link leaves the keychain as it is.
pub proof fn lemma_accept_needs_callback_and_tokens(parts: UrlPartsView, policy: LinkPolicyView)
    requires
        callback_action(parts, policy) is Accept,
    ensures
        classify_spec(parts, policy) is AuthCallback,
        last_value(parts.query, "access_token"@) == Some(
            callback_action(parts, policy)->tokens.access_token,
        ),
        last_value(parts.query, "refresh_token"@) == Some(
            callback_action(parts, policy)->tokens.refresh_token,
        ),
{
}

/// What a read of the keychain found is what the caller gets: a credential
/// that was found is handed back as it is, and an entry that is missing
/// gives none. What the keychain holds after a write or a removal is the
/// keychain's own affair, and is not stated here.
pub proof fn lemma_read_is_handed_back(tokens: AuthTokens)
    ensures
        stored_tokens(StoreRead::Found(tokens)) == Ok::<Option<AuthTokens>, AuthError>(
            Some(tokens),
        ),
        stored_tokens(StoreRead::Missing) == Ok::<Option<AuthTokens>, AuthError>(None),
        auth_status(StoreRead::Found(tokens)) == Ok::<AuthStatus, AuthError>(
            AuthStatus { authenticated: true, has_tokens: true },
        ),
        auth_status(StoreRead::Missing) == Ok::<AuthStatus, AuthError>(
            AuthStatus { authenticated: false, has_tokens: false },
        ),
{
}

/// A link leads to nothing exactly where it is unknown, and to a stored
/// credential only where it parsed and is a login callback: a link that is
/// not for the login endpoint reaches neither the keychain nor the
/// presentation layer.
pub proof fn lemma_action_follows_verdict(
    url: Seq<char>,
    parsed: Option<UrlPartsView>,
    policy: LinkPolicyView,
)
    ensures
        link_action(url, parsed, policy) is Ignore <==> verdict(url, parsed, policy) is Unknown,
        link_action(url, parsed, policy) is Accept ==> parsed is Some && verdict(
            url,
            parsed,
            policy,
        ) is AuthCallback,
{
}

/// A login is reported as a success only where its credential was written
/// to the keychain.
pub proof fn lemma_success_means_stored(tokens: AuthTokensView, write: StoreWrite)
    ensures
        event_after_store(tokens, write) is Success <==> write is Written,
        store_result(write) is Ok <==> write is Written,
{
}

} // verus!

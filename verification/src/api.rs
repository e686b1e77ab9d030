//! The authorization-code login: the request that opens it, the exchange of
//! the code for a token, and the coordinator that runs one attempt.

use vstd::prelude::*;
use vstd::string::*;
use crate::config::{ConfigError, Environment, EnvironmentView, OAuthConfig, OAuthConfigView};
use crate::config::oauth_config_from;
use crate::json::{json_string_member, string_member};
use crate::keychain::StoreError;
use crate::text::{text_of, Pairs};

verus! {

/// Where the provider sends the browser back to.
pub const REDIRECT_URI: &'static str = "http://127.0.0.1:49153/callback";

/// What the login asks permission for.
pub const SCOPE: &'static str = "tasks:read tasks:write";

/// Grant type of the exchange.
pub const GRANT_TYPE: &'static str = "authorization_code";

/// Response type of the authorization request.
pub const RESPONSE_TYPE: &'static str = "code";

/// Longest endpoint, parameter name or parameter value, in characters, that
/// is written into a URL.
pub const MAX_URL_PART: usize = 65536;

/// Most parameters that are written into a URL.
pub const MAX_URL_PARAMS: usize = 256;

/// The error of `url::Url::parse_with_params`.
#[verifier::external_type_specification]
#[verifier::external_body]
pub struct ExParseError(url::ParseError);

/// The text of the URL that `url::Url::parse_with_params` makes of an
/// endpoint and a list of query parameters, `None` where it reports an error.
pub uninterp spec fn url_with_params(endpoint: Seq<char>, params: Pairs) -> Option<Seq<char>>;

/// Whether an endpoint and its parameters are short enough to be written
/// into a URL.
pub open spec fn fits_in_url(endpoint: Seq<char>, params: Pairs) -> bool {
    &&& endpoint.len() <= MAX_URL_PART
    &&& params.len() <= MAX_URL_PARAMS
    &&& forall|i: int|
        0 <= i < params.len() ==> (#[trigger] params[i]).0.len() <= MAX_URL_PART
            && params[i].1.len() <= MAX_URL_PART
}

/// Calls `url::Url::parse_with_params`, which parses `endpoint` as an
/// absolute URL and appends `params` to its query, and takes the URL's text
/// out of the result. The contract claims that the outcome is a function of
/// the two arguments, and names it `url_with_params`. The bound keeps every
/// offset into the text within the 32 bits that the URL stores them in.
#[verifier::external_body]
fn parse_with_params(endpoint: &str, params: &Vec<(String, String)>) -> (r: Result<
    String,
    url::ParseError,
>)
    requires
        fits_in_url(endpoint@, params.deep_view()),
    ensures
        r is Ok <==> url_with_params(endpoint@, params.deep_view()) is Some,
        r matches Ok(text) ==> url_with_params(endpoint@, params.deep_view()) == Some(text@),
{
    url::Url::parse_with_params(endpoint, params).map(String::from)
}

/// Why an authorization request could not be written as a URL.
#[derive(Clone, Copy, Debug, PartialEq, Eq, Structural)]
pub enum AuthUrlError {
    /// The endpoint or one of the parameters is longer than `MAX_URL_PART`.
    TooLong,
    /// The endpoint is not an absolute URL.
    Malformed,
}

/// What is asked of the provider to open a login. Built once per attempt.
#[derive(Debug, PartialEq, Eq)]
pub struct AuthorizationRequest {
    client_id: String,
    redirect_uri: String,
    scope: String,
    state: String,
    response_type: String,
}

pub struct AuthorizationRequestView {
    pub client_id: Seq<char>,
    pub redirect_uri: Seq<char>,
    pub scope: Seq<char>,
    pub state: Seq<char>,
    pub response_type: Seq<char>,
}

impl View for AuthorizationRequest {
    type V = AuthorizationRequestView;

    closed spec fn view(&self) -> AuthorizationRequestView {
        AuthorizationRequestView {
            client_id: self.client_id@,
            redirect_uri: self.redirect_uri@,
            scope: self.scope@,
            state: self.state@,
            response_type: self.response_type@,
        }
    }
}

/// The query parameters of an authorization request, in the order they are
/// written.
pub open spec fn authorization_params(request: AuthorizationRequestView) -> Pairs {
    seq![
        ("client_id"@, request.client_id),
        ("redirect_uri"@, request.redirect_uri),
        ("scope"@, request.scope),
        ("state"@, request.state),
        ("response_type"@, request.response_type),
    ]
}

/// The authorization URL of a request at an endpoint: `TooLong` where a part
/// exceeds the limit, `Malformed` where the endpoint does not parse, else the
/// endpoint with the five parameters in its query.
pub open spec fn authorization_url(endpoint: Seq<char>, request: AuthorizationRequestView) -> Result<
    Seq<char>,
    AuthUrlError,
> {
    url_outcome(
        fits_in_url(endpoint, authorization_params(request)),
        url_with_params(endpoint, authorization_params(request)),
    )
}

/// What becomes of an attempt to write a URL: `fits` says whether the parts
/// were short enough to try, `written` what the attempt gave.
pub open spec fn url_outcome(fits: bool, written: Option<Seq<char>>) -> Result<
    Seq<char>,
    AuthUrlError,
> {
    if !fits {
        Err(AuthUrlError::TooLong)
    } else {
        match written {
            Some(text) => Ok(text),
            None => Err(AuthUrlError::Malformed),
        }
    }
}

/// Whether `text` has at most `limit` characters.
fn within(text: &str, limit: usize) -> (r: bool)
    ensures
        r == (text@.len() <= limit),
{
    text.unicode_len() <= limit
}

/// Whether an endpoint and its parameters are short enough to be written
/// into a URL.
pub fn check_fits_in_url(endpoint: &str, params: &Vec<(String, String)>) -> (r: bool)
    ensures
        r == fits_in_url(endpoint@, params.deep_view()),
{
    if !within(endpoint, MAX_URL_PART) || params.len() > MAX_URL_PARAMS {
        return false;
    }
    let ghost all = params.deep_view();
    let mut i: usize = 0;
    while i < params.len()
        invariant
            i <= params.len(),
            all == params.deep_view(),
            forall|j: int|
                0 <= j < i ==> (#[trigger] all[j]).0.len() <= MAX_URL_PART && all[j].1.len()
                    <= MAX_URL_PART,
        decreases params.len() - i,
    {
        assert(all[i as int] == (params@[i as int].0@, params@[i as int].1@));
        if !within(params[i].0.as_str(), MAX_URL_PART) || !within(
            params[i].1.as_str(),
            MAX_URL_PART,
        ) {
            return false;
        }
        i = i + 1;
    }
    true
}

/// Turns what the URL writer gave into the library's result.
pub fn written_url(written: Result<String, url::ParseError>) -> (r: Result<String, AuthUrlError>)
    ensures
        written matches Ok(text) ==> r matches Ok(same) && same@ == text@,
        written is Err ==> r == Err::<String, AuthUrlError>(AuthUrlError::Malformed),
{
    match written {
        Ok(text) => Ok(text),
        Err(_) => Err(AuthUrlError::Malformed),
    }
}

/// Appends `params` to the query of `endpoint`.
pub fn url_with_query(endpoint: &str, params: &Vec<(String, String)>) -> (r: Result<
    String,
    AuthUrlError,
>)
    ensures
        text_of(r) == url_outcome(
            fits_in_url(endpoint@, params.deep_view()),
            url_with_params(endpoint@, params.deep_view()),
        ),
{
    if !check_fits_in_url(endpoint, params) {
        return Err(AuthUrlError::TooLong);
    }
    written_url(parse_with_params(endpoint, params))
}

impl AuthorizationRequest {
    /// A request for an authorization code.
    pub fn new(client_id: &str, redirect_uri: &str, scope: &str, state: &str) -> (r:
        AuthorizationRequest)
        ensures
            r@ == (AuthorizationRequestView {
                client_id: client_id@,
                redirect_uri: redirect_uri@,
                scope: scope@,
                state: state@,
                response_type: RESPONSE_TYPE@,
            }),
    {
        AuthorizationRequest {
            client_id: String::from_str(client_id),
            redirect_uri: String::from_str(redirect_uri),
            scope: String::from_str(scope),
            state: String::from_str(state),
            response_type: String::from_str(RESPONSE_TYPE),
        }
    }

    /// The request that a login with these settings opens with.
    pub fn for_login(config: &OAuthConfig) -> (r: AuthorizationRequest)
        ensures
            r@ == (AuthorizationRequestView {
                client_id: config.api_client@,
                redirect_uri: REDIRECT_URI@,
                scope: SCOPE@,
                state: config.csrf_token@,
                response_type: RESPONSE_TYPE@,
            }),
    {
        AuthorizationRequest::new(
            config.api_client.as_str(),
            REDIRECT_URI,
            SCOPE,
            config.csrf_token.as_str(),
        )
    }

    /// The client the request is made for.
    pub fn client_id(&self) -> (r: &str)
        ensures
            r@ == self@.client_id,
    {
        self.client_id.as_str()
    }

    /// Where the provider sends the browser back to.
    pub fn redirect_uri(&self) -> (r: &str)
        ensures
            r@ == self@.redirect_uri,
    {
        self.redirect_uri.as_str()
    }

    /// What the request asks permission for.
    pub fn scope(&self) -> (r: &str)
        ensures
            r@ == self@.scope,
    {
        self.scope.as_str()
    }

    /// The token that ties the provider's answer to this request.
    pub fn state(&self) -> (r: &str)
        ensures
            r@ == self@.state,
    {
        self.state.as_str()
    }

    /// What the provider is to answer with.
    pub fn response_type(&self) -> (r: &str)
        ensures
            r@ == self@.response_type,
    {
        self.response_type.as_str()
    }

    /// The query parameters of the request, in the order they are written.
    pub fn params(&self) -> (r: Vec<(String, String)>)
        ensures
            r.deep_view() == authorization_params(self@),
    {
        let mut params: Vec<(String, String)> = Vec::new();
        params.push((String::from_str("client_id"), self.client_id.clone()));
        params.push((String::from_str("redirect_uri"), self.redirect_uri.clone()));
        params.push((String::from_str("scope"), self.scope.clone()));
        params.push((String::from_str("state"), self.state.clone()));
        params.push((String::from_str("response_type"), self.response_type.clone()));
        assert(params.deep_view() =~= authorization_params(self@));
        params
    }

    /// The URL that the browser is sent to.
    pub fn url(&self, endpoint: &str) -> (r: Result<String, AuthUrlError>)
        ensures
            text_of(r) == authorization_url(endpoint@, self@),
    {
        let params = self.params();
        url_with_query(endpoint, &params)
    }
}

/// Member of the token reply that holds the token.
pub const ACCESS_TOKEN_MEMBER: &'static str = "access_token";

/// What the provider hands out for an authorization code.
#[derive(Debug, PartialEq, Eq)]
pub struct TokenResponse {
    pub access_token: String,
}

/// Why an authorization code was not exchanged for a token. The attempt is
/// over: a code is good for one exchange.
#[derive(Debug, PartialEq, Eq)]
pub enum TokenExchangeError {
    /// The provider answered outside 2xx. Holds the raw body of the answer.
    Rejected(String),
    /// The provider answered 2xx, but the body holds no `access_token`.
    /// Holds the raw body of the answer.
    Unreadable(String),
    /// No answer came back. Holds what the transport reported.
    Unreachable(String),
}

pub enum TokenExchangeErrorView {
    Rejected(Seq<char>),
    Unreadable(Seq<char>),
    Unreachable(Seq<char>),
}

/// The one POST of the exchange: where it goes, the pair it authenticates
/// with, and the fields of its form.
#[derive(Debug, PartialEq, Eq)]
pub struct TokenRequest {
    pub endpoint: String,
    pub client_id: String,
    pub client_secret: String,
    pub form: Vec<(String, String)>,
}

pub struct TokenRequestView {
    pub endpoint: Seq<char>,
    pub client_id: Seq<char>,
    pub client_secret: Seq<char>,
    pub form: Pairs,
}

impl View for TokenResponse {
    type V = Seq<char>;

    open spec fn view(&self) -> Seq<char> {
        self.access_token@
    }
}

impl View for TokenExchangeError {
    type V = TokenExchangeErrorView;

    open spec fn view(&self) -> TokenExchangeErrorView {
        match self {
            TokenExchangeError::Rejected(body) => TokenExchangeErrorView::Rejected(body@),
            TokenExchangeError::Unreadable(body) => TokenExchangeErrorView::Unreadable(body@),
            TokenExchangeError::Unreachable(reason) => TokenExchangeErrorView::Unreachable(
                reason@,
            ),
        }
    }
}

impl View for TokenRequest {
    type V = TokenRequestView;

    open spec fn view(&self) -> TokenRequestView {
        TokenRequestView {
            endpoint: self.endpoint@,
            client_id: self.client_id@,
            client_secret: self.client_secret@,
            form: self.form.deep_view(),
        }
    }
}

/// The view of the result of an exchange.
pub open spec fn exchanged_view(r: Result<TokenResponse, TokenExchangeError>) -> Result<
    Seq<char>,
    TokenExchangeErrorView,
> {
    match r {
        Ok(token) => Ok(token@),
        Err(e) => Err(e@),
    }
}

/// Whether an HTTP status is in 2xx.
pub open spec fn is_success(status: u16) -> bool {
    200 <= status < 300
}

/// The request that exchanges `code` under the settings `config`.
pub open spec fn token_request_for(config: OAuthConfigView, code: Seq<char>) -> TokenRequestView {
    TokenRequestView {
        endpoint: config.api_token_uri,
        client_id: config.api_client,
        client_secret: config.api_key,
        form: seq![
            ("redirect_uri"@, REDIRECT_URI@),
            ("scope"@, SCOPE@),
            ("code"@, code),
            ("grant_type"@, GRANT_TYPE@),
        ],
    }
}

/// What a reply to the exchange amounts to, where `access_token` is the
/// string that the body holds under that name: outside 2xx the provider
/// rejected the code, and the error carries the raw body; within 2xx the
/// token is what the body holds, and a body without one is unreadable.
pub open spec fn token_outcome(
    status: u16,
    body: Seq<char>,
    access_token: Option<Seq<char>>,
) -> Result<Seq<char>, TokenExchangeErrorView> {
    if !is_success(status) {
        Err(TokenExchangeErrorView::Rejected(body))
    } else {
        match access_token {
            Some(token) => Ok(token),
            None => Err(TokenExchangeErrorView::Unreadable(body)),
        }
    }
}

/// What a reply to the exchange amounts to.
pub open spec fn exchange_outcome(status: u16, body: Seq<char>) -> Result<
    Seq<char>,
    TokenExchangeErrorView,
> {
    token_outcome(status, body, json_string_member(body, ACCESS_TOKEN_MEMBER@))
}

/// What is shown for a failed exchange.
pub open spec fn exchange_error_text(e: TokenExchangeErrorView) -> Seq<char> {
    match e {
        TokenExchangeErrorView::Rejected(body) => "Token Exchange falied: "@ + body,
        TokenExchangeErrorView::Unreadable(body) => "Token Exchange falied: no access token in "@
            + body,
        TokenExchangeErrorView::Unreachable(reason) => "Token Exchange falied: "@ + reason,
    }
}

impl TokenExchangeError {
    /// The line shown to the user; for a rejected code it ends in the
    /// provider's own text.
    pub fn message(&self) -> (r: String)
        ensures
            r@ == exchange_error_text(self@),
    {
        match self {
            TokenExchangeError::Rejected(body) => String::from_str(
                "Token Exchange falied: ",
            ).concat(body.as_str()),
            TokenExchangeError::Unreadable(body) => String::from_str(
                "Token Exchange falied: no access token in ",
            ).concat(body.as_str()),
            TokenExchangeError::Unreachable(reason) => String::from_str(
                "Token Exchange falied: ",
            ).concat(reason.as_str()),
        }
    }
}

/// Whether an HTTP status is in 2xx.
pub fn status_is_success(status: u16) -> (r: bool)
    ensures
        r == is_success(status),
{
    200 <= status && status < 300
}

/// Builds the one POST that exchanges `code` for a token.
pub fn token_request(config: &OAuthConfig, code: &str) -> (r: TokenRequest)
    ensures
        r@ == token_request_for(config@, code@),
{
    let mut form: Vec<(String, String)> = Vec::new();
    form.push((String::from_str("redirect_uri"), String::from_str(REDIRECT_URI)));
    form.push((String::from_str("scope"), String::from_str(SCOPE)));
    form.push((String::from_str("code"), String::from_str(code)));
    form.push((String::from_str("grant_type"), String::from_str(GRANT_TYPE)));
    assert(form.deep_view() =~= token_request_for(config@, code@).form);
    TokenRequest {
        endpoint: config.api_token_uri.clone(),
        client_id: config.api_client.clone(),
        client_secret: config.api_key.clone(),
        form,
    }
}

/// Reads the reply to the exchange, given the string that its body holds
/// under `access_token`.
pub fn read_token(status: u16, body: String, access_token: Option<String>) -> (r: Result<
    TokenResponse,
    TokenExchangeError,
>)
    ensures
        exchanged_view(r) == token_outcome(status, body@, access_token.deep_view()),
{
    if !status_is_success(status) {
        return Err(TokenExchangeError::Rejected(body));
    }
    match access_token {
        Some(token) => Ok(TokenResponse { access_token: token }),
        None => Err(TokenExchangeError::Unreadable(body)),
    }
}

/// Reads the reply to the exchange: its status and its body.
pub fn exchange_token(status: u16, body: String) -> (r: Result<TokenResponse, TokenExchangeError>)
    ensures
        exchanged_view(r) == exchange_outcome(status, body@),
{
    if !status_is_success(status) {
        return read_token(status, body, None);
    }
    let access_token = string_member(body.as_str(), ACCESS_TOKEN_MEMBER);
    read_token(status, body, access_token)
}

/// Why a login attempt failed.
#[derive(Debug, PartialEq, Eq)]
pub enum LoginError {
    /// A required setting is missing. Nothing was started.
    Config(ConfigError),
    /// The authorization request could not be written as a URL. Nothing was
    /// started.
    AuthorizationUrl(AuthUrlError),
    /// The loopback port could not be had. The browser was not opened.
    ListenerBind,
    /// The listener went down before a code arrived.
    Aborted,
    /// The code was not exchanged for a token.
    TokenExchange(TokenExchangeError),
    /// A token was obtained, but the secure store did not take it.
    Store(StoreError),
}

/// How a login attempt ended.
#[derive(Debug, PartialEq, Eq)]
pub enum LoginOutcome {
    AuthSucceeded,
    AuthFailed(LoginError),
}

/// Where a login attempt stands.
#[derive(Debug, PartialEq, Eq)]
pub enum Phase {
    /// Nothing has been asked for yet.
    Idle,
    /// The listener was asked to start.
    Binding,
    /// The listener runs; the browser was asked to open.
    Launching,
    /// The listener runs; the attempt waits on the hand-off.
    Waiting,
    /// The hand-off resolved, with the code or closed; the listener was asked
    /// to stop.
    Releasing(Option<String>),
    /// The listener is down; the exchange was asked for.
    Exchanging,
    /// A token was obtained; the store was asked to keep it.
    Saving,
    /// The attempt is over.
    Finished(LoginOutcome),
}

/// What happened outside since the last step.
#[derive(Debug, PartialEq, Eq)]
pub enum LoginEvent {
    /// The caller wants the attempt to start.
    Begin,
    /// The listener is bound and serving.
    ListenerBound,
    /// The loopback port was not available.
    ListenerBindFailed,
    /// The browser was launched.
    BrowserOpened,
    /// The browser could not be launched.
    BrowserFailed,
    /// The hand-off delivered an authorization code.
    CodeDelivered(String),
    /// The hand-off closed without a code.
    HandOffClosed,
    /// The listener is down and the port is free.
    ListenerStopped,
    /// The provider answered the exchange.
    TokenReply { status: u16, body: String },
    /// The exchange ended, with the token or the reason it has none.
    Exchanged(Result<TokenResponse, TokenExchangeError>),
    /// The store kept the token.
    CredentialSaved,
    /// The store did not keep the token.
    CredentialSaveFailed(StoreError),
}

/// What the caller is to do next.
#[derive(Debug, PartialEq, Eq)]
pub enum LoginAction {
    /// Bind the loopback port and serve the callback route.
    StartListener,
    /// Open the URL in the default browser.
    OpenBrowser(String),
    /// Wait on the hand-off. Where a URL is given the browser did not open:
    /// warn, and show the URL for the user to visit.
    AwaitCode(Option<String>),
    /// Cancel the listener and free the port.
    StopListener,
    /// Send the POST that exchanges the code.
    ExchangeCode(TokenRequest),
    /// Keep the token for the account in the secure store.
    SaveCredential { account: String, token: String },
    /// Tell the user how the attempt ended.
    Report,
    /// The event has no bearing on the attempt as it stands.
    Nothing,
}

/// One login attempt.
#[derive(Debug, PartialEq, Eq)]
pub struct LoginSession {
    phase: Phase,
    account: String,
    auth_url: String,
    config: OAuthConfig,
}

pub enum LoginErrorView {
    Config(ConfigError),
    AuthorizationUrl(AuthUrlError),
    ListenerBind,
    Aborted,
    TokenExchange(TokenExchangeErrorView),
    Store(Seq<char>),
}

pub enum LoginOutcomeView {
    AuthSucceeded,
    AuthFailed(LoginErrorView),
}

pub enum PhaseView {
    Idle,
    Binding,
    Launching,
    Waiting,
    Releasing(Option<Seq<char>>),
    Exchanging,
    Saving,
    Finished(LoginOutcomeView),
}

pub enum LoginEventView {
    Begin,
    ListenerBound,
    ListenerBindFailed,
    BrowserOpened,
    BrowserFailed,
    CodeDelivered(Seq<char>),
    HandOffClosed,
    ListenerStopped,
    TokenReply { status: u16, body: Seq<char> },
    Exchanged(Result<Seq<char>, TokenExchangeErrorView>),
    CredentialSaved,
    CredentialSaveFailed(Seq<char>),
}

pub enum LoginActionView {
    StartListener,
    OpenBrowser(Seq<char>),
    AwaitCode(Option<Seq<char>>),
    StopListener,
    ExchangeCode(TokenRequestView),
    SaveCredential { account: Seq<char>, token: Seq<char> },
    Report,
    Nothing,
}

pub struct LoginSessionView {
    pub phase: PhaseView,
    pub account: Seq<char>,
    pub auth_url: Seq<char>,
    pub config: OAuthConfigView,
}

impl View for LoginError {
    type V = LoginErrorView;

    open spec fn view(&self) -> LoginErrorView {
        match self {
            LoginError::Config(e) => LoginErrorView::Config(*e),
            LoginError::AuthorizationUrl(e) => LoginErrorView::AuthorizationUrl(*e),
            LoginError::ListenerBind => LoginErrorView::ListenerBind,
            LoginError::Aborted => LoginErrorView::Aborted,
            LoginError::TokenExchange(e) => LoginErrorView::TokenExchange(e@),
            LoginError::Store(e) => LoginErrorView::Store(e@),
        }
    }
}

impl View for LoginOutcome {
    type V = LoginOutcomeView;

    open spec fn view(&self) -> LoginOutcomeView {
        match self {
            LoginOutcome::AuthSucceeded => LoginOutcomeView::AuthSucceeded,
            LoginOutcome::AuthFailed(e) => LoginOutcomeView::AuthFailed(e@),
        }
    }
}

impl View for Phase {
    type V = PhaseView;

    open spec fn view(&self) -> PhaseView {
        match self {
            Phase::Idle => PhaseView::Idle,
            Phase::Binding => PhaseView::Binding,
            Phase::Launching => PhaseView::Launching,
            Phase::Waiting => PhaseView::Waiting,
            Phase::Releasing(code) => PhaseView::Releasing(code.deep_view()),
            Phase::Exchanging => PhaseView::Exchanging,
            Phase::Saving => PhaseView::Saving,
            Phase::Finished(outcome) => PhaseView::Finished(outcome@),
        }
    }
}

impl View for LoginEvent {
    type V = LoginEventView;

    open spec fn view(&self) -> LoginEventView {
        match self {
            LoginEvent::Begin => LoginEventView::Begin,
            LoginEvent::ListenerBound => LoginEventView::ListenerBound,
            LoginEvent::ListenerBindFailed => LoginEventView::ListenerBindFailed,
            LoginEvent::BrowserOpened => LoginEventView::BrowserOpened,
            LoginEvent::BrowserFailed => LoginEventView::BrowserFailed,
            LoginEvent::CodeDelivered(code) => LoginEventView::CodeDelivered(code@),
            LoginEvent::HandOffClosed => LoginEventView::HandOffClosed,
            LoginEvent::ListenerStopped => LoginEventView::ListenerStopped,
            LoginEvent::TokenReply { status, body } => LoginEventView::TokenReply {
                status: *status,
                body: body@,
            },
            LoginEvent::Exchanged(result) => LoginEventView::Exchanged(exchanged_view(*result)),
            LoginEvent::CredentialSaved => LoginEventView::CredentialSaved,
            LoginEvent::CredentialSaveFailed(e) => LoginEventView::CredentialSaveFailed(e@),
        }
    }
}

impl View for LoginAction {
    type V = LoginActionView;

    open spec fn view(&self) -> LoginActionView {
        match self {
            LoginAction::StartListener => LoginActionView::StartListener,
            LoginAction::OpenBrowser(url) => LoginActionView::OpenBrowser(url@),
            LoginAction::AwaitCode(url) => LoginActionView::AwaitCode(url.deep_view()),
            LoginAction::StopListener => LoginActionView::StopListener,
            LoginAction::ExchangeCode(request) => LoginActionView::ExchangeCode(request@),
            LoginAction::SaveCredential { account, token } => LoginActionView::SaveCredential {
                account: account@,
                token: token@,
            },
            LoginAction::Report => LoginActionView::Report,
            LoginAction::Nothing => LoginActionView::Nothing,
        }
    }
}

impl View for LoginSession {
    type V = LoginSessionView;

    closed spec fn view(&self) -> LoginSessionView {
        LoginSessionView {
            phase: self.phase@,
            account: self.account@,
            auth_url: self.auth_url@,
            config: self.config@,
        }
    }
}

impl LoginSessionView {
    /// The same attempt in another phase.
    pub open spec fn at(self, phase: PhaseView) -> LoginSessionView {
        LoginSessionView { phase, ..self }
    }

    /// The same attempt, over, with the error `e`.
    pub open spec fn failed(self, e: LoginErrorView) -> LoginSessionView {
        self.at(PhaseView::Finished(LoginOutcomeView::AuthFailed(e)))
    }
}

/// The attempt that a login for `account` under the settings `config` opens
/// with, or the reason it cannot be opened.
pub open spec fn session_for(config: OAuthConfigView, account: Seq<char>) -> Result<
    LoginSessionView,
    LoginErrorView,
> {
    let request = AuthorizationRequestView {
        client_id: config.api_client,
        redirect_uri: REDIRECT_URI@,
        scope: SCOPE@,
        state: config.csrf_token,
        response_type: RESPONSE_TYPE@,
    };
    match authorization_url(config.api_auth_uri, request) {
        Ok(auth_url) => Ok(LoginSessionView { phase: PhaseView::Idle, account, auth_url, config }),
        Err(e) => Err(LoginErrorView::AuthorizationUrl(e)),
    }
}

/// The attempt that a login for `account` opens with in the surroundings
/// `env`, or the reason it cannot be opened: a missing setting first.
pub open spec fn session_in(env: EnvironmentView, account: Seq<char>) -> Result<
    LoginSessionView,
    LoginErrorView,
> {
    match oauth_config_from(env) {
        Ok(config) => session_for(config, account),
        Err(e) => Err(LoginErrorView::Config(e)),
    }
}

/// One step of a login attempt: the attempt after `event`, and what the
/// caller is to do next. An event that the phase does not wait for changes
/// nothing.
pub open spec fn step(s: LoginSessionView, event: LoginEventView) -> (
    LoginSessionView,
    LoginActionView,
) {
    match (s.phase, event) {
        (PhaseView::Idle, LoginEventView::Begin) => (
            s.at(PhaseView::Binding),
            LoginActionView::StartListener,
        ),
        (PhaseView::Binding, LoginEventView::ListenerBound) => (
            s.at(PhaseView::Launching),
            LoginActionView::OpenBrowser(s.auth_url),
        ),
        (PhaseView::Binding, LoginEventView::ListenerBindFailed) => (
            s.failed(LoginErrorView::ListenerBind),
            LoginActionView::Report,
        ),
        (PhaseView::Launching, LoginEventView::BrowserOpened) => (
            s.at(PhaseView::Waiting),
            LoginActionView::AwaitCode(None),
        ),
        (PhaseView::Launching, LoginEventView::BrowserFailed) => (
            s.at(PhaseView::Waiting),
            LoginActionView::AwaitCode(Some(s.auth_url)),
        ),
        (PhaseView::Waiting, LoginEventView::CodeDelivered(code)) => (
            s.at(PhaseView::Releasing(Some(code))),
            LoginActionView::StopListener,
        ),
        (PhaseView::Waiting, LoginEventView::HandOffClosed) => (
            s.at(PhaseView::Releasing(None)),
            LoginActionView::StopListener,
        ),
        (PhaseView::Releasing(Some(code)), LoginEventView::ListenerStopped) => (
            s.at(PhaseView::Exchanging),
            LoginActionView::ExchangeCode(token_request_for(s.config, code)),
        ),
        (PhaseView::Releasing(None), LoginEventView::ListenerStopped) => (
            s.failed(LoginErrorView::Aborted),
            LoginActionView::Report,
        ),
        (PhaseView::Exchanging, LoginEventView::TokenReply { status, body }) => after_exchange(
            s,
            exchange_outcome(status, body),
        ),
        (PhaseView::Exchanging, LoginEventView::Exchanged(result)) => after_exchange(s, result),
        (PhaseView::Saving, LoginEventView::CredentialSaved) => (
            s.at(PhaseView::Finished(LoginOutcomeView::AuthSucceeded)),
            LoginActionView::Report,
        ),
        (PhaseView::Saving, LoginEventView::CredentialSaveFailed(reason)) => (
            s.failed(LoginErrorView::Store(reason)),
            LoginActionView::Report,
        ),
        _ => (s, LoginActionView::Nothing),
    }
}

/// The step that ends the exchange: with a token the store is asked to keep
/// it for the account, without one the attempt is over and the store is left
/// alone.
pub open spec fn after_exchange(
    s: LoginSessionView,
    result: Result<Seq<char>, TokenExchangeErrorView>,
) -> (LoginSessionView, LoginActionView) {
    match result {
        Ok(token) => (
            s.at(PhaseView::Saving),
            LoginActionView::SaveCredential { account: s.account, token },
        ),
        Err(e) => (s.failed(LoginErrorView::TokenExchange(e)), LoginActionView::Report),
    }
}

/// What is shown for a failed attempt.
pub open spec fn login_error_text(e: LoginErrorView) -> Seq<char> {
    match e {
        LoginErrorView::Config(e) => crate::config::env_name_of(e.setting()) + " is missing"@,
        LoginErrorView::AuthorizationUrl(AuthUrlError::TooLong) =>
            "Authorization failed: the authorization request is too long."@,
        LoginErrorView::AuthorizationUrl(AuthUrlError::Malformed) =>
            "Authorization failed: the authorization address is not a URL."@,
        LoginErrorView::ListenerBind =>
            "Authorization failed: http://127.0.0.1:49153 is in use."@,
        LoginErrorView::Aborted =>
            "\n❌ Authorization failed: Server shut down without receiving the code."@,
        LoginErrorView::TokenExchange(e) => exchange_error_text(e),
        LoginErrorView::Store(reason) => "❌ Failed to set Auth: "@ + reason,
    }
}

/// What is shown at the end of an attempt.
pub open spec fn login_outcome_text(outcome: LoginOutcomeView) -> Seq<char> {
    match outcome {
        LoginOutcomeView::AuthSucceeded => "✅ Auth completed"@,
        LoginOutcomeView::AuthFailed(e) => login_error_text(e),
    }
}

/// Whether the listener is up in a phase.
pub open spec fn listener_is_up(phase: PhaseView) -> bool {
    phase is Launching || phase is Waiting || phase is Releasing
}

/// The view of a session or the reason there is none.
pub open spec fn opened_view(r: Result<LoginSession, LoginError>) -> Result<
    LoginSessionView,
    LoginErrorView,
> {
    match r {
        Ok(session) => Ok(session@),
        Err(e) => Err(e@),
    }
}

impl LoginError {
    /// The line shown to the user.
    pub fn message(&self) -> (r: String)
        ensures
            r@ == login_error_text(self@),
    {
        match self {
            LoginError::Config(e) => e.message(),
            LoginError::AuthorizationUrl(AuthUrlError::TooLong) => String::from_str(
                "Authorization failed: the authorization request is too long.",
            ),
            LoginError::AuthorizationUrl(AuthUrlError::Malformed) => String::from_str(
                "Authorization failed: the authorization address is not a URL.",
            ),
            LoginError::ListenerBind => String::from_str(
                "Authorization failed: http://127.0.0.1:49153 is in use.",
            ),
            LoginError::Aborted => String::from_str(
                "\n❌ Authorization failed: Server shut down without receiving the code.",
            ),
            LoginError::TokenExchange(e) => e.message(),
            LoginError::Store(e) => String::from_str("❌ Failed to set Auth: ").concat(
                e.reason.as_str(),
            ),
        }
    }
}

impl LoginOutcome {
    /// Whether the attempt ended with the token in the store.
    pub fn succeeded(&self) -> (r: bool)
        ensures
            r == (self@ is AuthSucceeded),
    {
        match self {
            LoginOutcome::AuthSucceeded => true,
            LoginOutcome::AuthFailed(_) => false,
        }
    }

    /// The line shown to the user.
    pub fn message(&self) -> (r: String)
        ensures
            r@ == login_outcome_text(self@),
    {
        match self {
            LoginOutcome::AuthSucceeded => String::from_str("✅ Auth completed"),
            LoginOutcome::AuthFailed(e) => e.message(),
        }
    }
}

impl LoginSession {
    /// Opens an attempt for `account` under the settings `config`. Nothing
    /// outside is touched: a request that cannot be written as a URL ends
    /// the attempt before it starts.
    pub fn new(config: OAuthConfig, account: String) -> (r: Result<LoginSession, LoginError>)
        ensures
            opened_view(r) == session_for(config@, account@),
    {
        let request = AuthorizationRequest::for_login(&config);
        match request.url(config.api_auth_uri.as_str()) {
            Ok(auth_url) => Ok(LoginSession { phase: Phase::Idle, account, auth_url, config }),
            Err(e) => Err(LoginError::AuthorizationUrl(e)),
        }
    }

    /// Opens an attempt for `account` with the settings found in `env`. A
    /// missing setting ends the attempt before it starts.
    pub fn open(env: &Environment, account: String) -> (r: Result<LoginSession, LoginError>)
        ensures
            opened_view(r) == session_in(env@, account@),
    {
        match OAuthConfig::init(env) {
            Ok(config) => LoginSession::new(config, account),
            Err(e) => Err(LoginError::Config(e)),
        }
    }

    /// Where the attempt stands.
    pub fn phase(&self) -> (r: &Phase)
        ensures
            r@ == self@.phase,
    {
        &self.phase
    }

    /// The account the attempt logs in.
    pub fn account(&self) -> (r: &str)
        ensures
            r@ == self@.account,
    {
        self.account.as_str()
    }

    /// The state that the provider's answer must carry: the one the
    /// authorization request was sent with.
    pub fn expected_state(&self) -> (r: &str)
        ensures
            r@ == self@.config.csrf_token,
    {
        self.config.csrf_token.as_str()
    }

    /// The URL the browser is sent to.
    pub fn authorization_url(&self) -> (r: &str)
        ensures
            r@ == self@.auth_url,
    {
        self.auth_url.as_str()
    }

    /// How the attempt ended, once it is over.
    pub fn outcome(&self) -> (r: Option<&LoginOutcome>)
        ensures
            match r {
                Some(outcome) => self@.phase == PhaseView::Finished(outcome@),
                None => !(self@.phase is Finished),
            },
    {
        match &self.phase {
            Phase::Finished(outcome) => Some(outcome),
            _ => None,
        }
    }

    /// How the attempt ended, where it is over; the attempt is given up.
    pub fn into_outcome(self) -> (r: Option<LoginOutcome>)
        ensures
            match r {
                Some(outcome) => self@.phase == PhaseView::Finished(outcome@),
                None => !(self@.phase is Finished),
            },
    {
        match self.phase {
            Phase::Finished(outcome) => Some(outcome),
            _ => None,
        }
    }

    /// Whether the listener is up, as far as the attempt knows.
    pub fn listener_up(&self) -> (r: bool)
        ensures
            r == listener_is_up(self@.phase),
    {
        match &self.phase {
            Phase::Launching | Phase::Waiting | Phase::Releasing(_) => true,
            _ => false,
        }
    }
}

/// Advances a login attempt by one event and says what is to be done next.
/// The caller performs the action and comes back with the event that
/// followed.
pub fn authenticate(session: LoginSession, event: LoginEvent) -> (r: (LoginSession, LoginAction))
    ensures
        (r.0@, r.1@) == step(session@, event@),
{
    let LoginSession { phase, account, auth_url, config } = session;
    let event = match event {
        LoginEvent::TokenReply { status, body } => LoginEvent::Exchanged(
            exchange_token(status, body),
        ),
        other => other,
    };
    match (phase, event) {
        (Phase::Idle, LoginEvent::Begin) => (
            LoginSession { phase: Phase::Binding, account, auth_url, config },
            LoginAction::StartListener,
        ),
        (Phase::Binding, LoginEvent::ListenerBound) => {
            let url = auth_url.clone();
            (
                LoginSession { phase: Phase::Launching, account, auth_url, config },
                LoginAction::OpenBrowser(url),
            )
        },
        (Phase::Binding, LoginEvent::ListenerBindFailed) => (
            LoginSession {
                phase: Phase::Finished(LoginOutcome::AuthFailed(LoginError::ListenerBind)),
                account,
                auth_url,
                config,
            },
            LoginAction::Report,
        ),
        (Phase::Launching, LoginEvent::BrowserOpened) => (
            LoginSession { phase: Phase::Waiting, account, auth_url, config },
            LoginAction::AwaitCode(None),
        ),
        (Phase::Launching, LoginEvent::BrowserFailed) => {
            let url = auth_url.clone();
            (
                LoginSession { phase: Phase::Waiting, account, auth_url, config },
                LoginAction::AwaitCode(Some(url)),
            )
        },
        (Phase::Waiting, LoginEvent::CodeDelivered(code)) => (
            LoginSession { phase: Phase::Releasing(Some(code)), account, auth_url, config },
            LoginAction::StopListener,
        ),
        (Phase::Waiting, LoginEvent::HandOffClosed) => (
            LoginSession { phase: Phase::Releasing(None), account, auth_url, config },
            LoginAction::StopListener,
        ),
        (Phase::Releasing(Some(code)), LoginEvent::ListenerStopped) => {
            let request = token_request(&config, code.as_str());
            (
                LoginSession { phase: Phase::Exchanging, account, auth_url, config },
                LoginAction::ExchangeCode(request),
            )
        },
        (Phase::Releasing(None), LoginEvent::ListenerStopped) => (
            LoginSession {
                phase: Phase::Finished(LoginOutcome::AuthFailed(LoginError::Aborted)),
                account,
                auth_url,
                config,
            },
            LoginAction::Report,
        ),
        (Phase::Exchanging, LoginEvent::Exchanged(Ok(token))) => {
            let owner = account.clone();
            (
                LoginSession { phase: Phase::Saving, account, auth_url, config },
                LoginAction::SaveCredential { account: owner, token: token.access_token },
            )
        },
        (Phase::Exchanging, LoginEvent::Exchanged(Err(e))) => (
            LoginSession {
                phase: Phase::Finished(LoginOutcome::AuthFailed(LoginError::TokenExchange(e))),
                account,
                auth_url,
                config,
            },
            LoginAction::Report,
        ),
        (Phase::Saving, LoginEvent::CredentialSaved) => (
            LoginSession {
                phase: Phase::Finished(LoginOutcome::AuthSucceeded),
                account,
                auth_url,
                config,
            },
            LoginAction::Report,
        ),
        (Phase::Saving, LoginEvent::CredentialSaveFailed(e)) => (
            LoginSession {
                phase: Phase::Finished(LoginOutcome::AuthFailed(LoginError::Store(e))),
                account,
                auth_url,
                config,
            },
            LoginAction::Report,
        ),
        (phase, _) => (LoginSession { phase, account, auth_url, config }, LoginAction::Nothing),
    }
}

/// An attempt that is over stays as it is: no event moves it, and nothing
/// more is asked of the caller.
pub proof fn lemma_finished_is_final(s: LoginSessionView, event: LoginEventView)
    requires
        s.phase is Finished,
    ensures
        step(s, event) == (s, LoginActionView::Nothing),
{
}

/// All or nothing: the store is asked to keep a token only when an exchange
/// has just given one, and then that token for the attempt's account. No
/// step that ends the attempt in failure asks anything of the store.
pub proof fn lemma_store_untouched_without_token(s: LoginSessionView, event: LoginEventView)
    ensures
        step(s, event).1 matches LoginActionView::SaveCredential { account, token } ==> {
            &&& s.phase is Exchanging
            &&& account == s.account
            &&& event matches LoginEventView::Exchanged(result) ==> result == Ok::<
                Seq<char>,
                TokenExchangeErrorView,
            >(token)
            &&& event matches LoginEventView::TokenReply { status, body } ==> exchange_outcome(
                status,
                body,
            ) == Ok::<Seq<char>, TokenExchangeErrorView>(token)
            &&& event is Exchanged || event is TokenReply
        },
        step(s, event).0.phase is Finished ==> !(step(s, event).1 is SaveCredential),
{
}

/// The listener does not outlive the attempt: once the hand-off resolves the
/// caller is told to stop the listener, and only the news that it is down
/// lets the attempt go on to the exchange or to its end.
pub proof fn lemma_listener_released_first(s: LoginSessionView, event: LoginEventView)
    ensures
        s.phase is Waiting && (event is CodeDelivered || event is HandOffClosed) ==> step(
            s,
            event,
        ).1 is StopListener,
        listener_is_up(s.phase) && !listener_is_up(step(s, event).0.phase) ==> s.phase is Releasing
            && event is ListenerStopped,
        step(s, event).1 is ExchangeCode ==> s.phase is Releasing && event is ListenerStopped,
{
}

/// A login that meets no failure: from the start to the stored token, each
/// event is answered with the next thing to do, the store is asked to keep
/// exactly the token that the exchange gave, for the attempt's account, and
/// the attempt ends in success.
pub proof fn lemma_successful_login(s: LoginSessionView, code: Seq<char>, token: Seq<char>)
    requires
        s.phase is Idle,
    ensures
        ({
            let a = step(s, LoginEventView::Begin);
            let b = step(a.0, LoginEventView::ListenerBound);
            let c = step(b.0, LoginEventView::BrowserOpened);
            let d = step(c.0, LoginEventView::CodeDelivered(code));
            let e = step(d.0, LoginEventView::ListenerStopped);
            let f = step(e.0, LoginEventView::Exchanged(Ok(token)));
            let g = step(f.0, LoginEventView::CredentialSaved);
            &&& a.1 == LoginActionView::StartListener
            &&& b.1 == LoginActionView::OpenBrowser(s.auth_url)
            &&& c.1 == LoginActionView::AwaitCode(None)
            &&& d.1 == LoginActionView::StopListener
            &&& e.1 == LoginActionView::ExchangeCode(token_request_for(s.config, code))
            &&& f.1 == (LoginActionView::SaveCredential { account: s.account, token })
            &&& g.1 == LoginActionView::Report
            &&& g.0 == s.at(PhaseView::Finished(LoginOutcomeView::AuthSucceeded))
        }),
{
}

/// The attempt after each of `events` in turn.
pub open spec fn session_after(s: LoginSessionView, events: Seq<LoginEventView>) -> LoginSessionView
    decreases events.len(),
{
    if events.len() == 0 {
        s
    } else {
        session_after(step(s, events[0]).0, events.skip(1))
    }
}

/// How many of the actions that the caller is given are of the kind `what`
/// while the attempt takes each of `events` in turn.
pub open spec fn asked_during(
    s: LoginSessionView,
    events: Seq<LoginEventView>,
    what: spec_fn(LoginActionView) -> bool,
) -> nat
    decreases events.len(),
{
    if events.len() == 0 {
        0
    } else {
        let (next, action) = step(s, events[0]);
        one_if(what(action)) + asked_during(next, events.skip(1), what)
    }
}

/// One where `b` holds, else zero.
pub open spec fn one_if(b: bool) -> nat {
    if b {
        1
    } else {
        0
    }
}

/// Whether an action asks the store to keep a token.
pub open spec fn is_save(action: LoginActionView) -> bool {
    action is SaveCredential
}

/// Whether an action tells the caller to stop the listener.
pub open spec fn is_stop(action: LoginActionView) -> bool {
    action is StopListener
}

/// Whether an action asks for the exchange.
pub open spec fn is_exchange(action: LoginActionView) -> bool {
    action is ExchangeCode
}

/// Whether an action tells the caller to start the listener.
pub open spec fn is_start(action: LoginActionView) -> bool {
    action is StartListener
}

/// Whether the store was asked to keep a token on the way to a phase.
pub open spec fn store_was_asked(phase: PhaseView) -> bool {
    ||| phase is Saving
    ||| phase == PhaseView::Finished(LoginOutcomeView::AuthSucceeded)
    ||| phase matches PhaseView::Finished(LoginOutcomeView::AuthFailed(LoginErrorView::Store(_)))
}

/// Whether the exchange was asked for on the way to a phase.
pub open spec fn exchange_was_asked(phase: PhaseView) -> bool {
    ||| phase is Exchanging
    ||| store_was_asked(phase)
    ||| phase matches PhaseView::Finished(
        LoginOutcomeView::AuthFailed(LoginErrorView::TokenExchange(_)),
    )
}

/// Whether the caller was told to stop the listener on the way to a phase.
pub open spec fn stop_was_asked(phase: PhaseView) -> bool {
    ||| phase is Releasing
    ||| exchange_was_asked(phase)
    ||| phase == PhaseView::Finished(LoginOutcomeView::AuthFailed(LoginErrorView::Aborted))
}

/// Whether the caller was told to start the listener on the way to a phase.
pub open spec fn start_was_asked(phase: PhaseView) -> bool {
    ||| phase is Binding
    ||| phase is Launching
    ||| phase is Waiting
    ||| stop_was_asked(phase)
    ||| phase == PhaseView::Finished(LoginOutcomeView::AuthFailed(LoginErrorView::ListenerBind))
}

/// Where every step gives an action of the kind `what` exactly when it
/// takes the attempt from a phase outside `after` to one inside, and no step
/// leads out of `after`, the actions of that kind are counted by the phases
/// alone.
pub proof fn lemma_asked_follows_phases(
    s: LoginSessionView,
    events: Seq<LoginEventView>,
    what: spec_fn(LoginActionView) -> bool,
    after: spec_fn(PhaseView) -> bool,
)
    requires
        forall|t: LoginSessionView, e: LoginEventView|
            one_if(what((#[trigger] step(t, e)).1)) + one_if(after(t.phase)) == one_if(
                after(step(t, e).0.phase),
            ),
    ensures
        asked_during(s, events, what) + one_if(after(s.phase)) == one_if(
            after(session_after(s, events).phase),
        ),
    decreases events.len(),
{
    if events.len() > 0 {
        lemma_asked_follows_phases(step(s, events[0]).0, events.skip(1), what, after);
    }
}

/// An attempt that starts idle never ends for want of settings or of a
/// request URL: those stop it before it starts.
pub proof fn lemma_reachable_outcomes(s: LoginSessionView, events: Seq<LoginEventView>)
    requires
        !(s.phase matches PhaseView::Finished(LoginOutcomeView::AuthFailed(e)) && (e is Config
            || e is AuthorizationUrl)),
    ensures
        !(session_after(s, events).phase matches PhaseView::Finished(
            LoginOutcomeView::AuthFailed(e),
        ) && (e is Config || e is AuthorizationUrl)),
    decreases events.len(),
{
    if events.len() > 0 {
        lemma_reachable_outcomes(step(s, events[0]).0, events.skip(1));
    }
}

/// All or nothing, over a whole attempt: whatever events arrive, in whatever
/// order, the store is asked at most once; an attempt that ends in success
/// asked it once; and an attempt that ends in any failure but the store's
/// own never asked it.
pub proof fn lemma_all_or_nothing(s: LoginSessionView, events: Seq<LoginEventView>)
    requires
        s.phase is Idle,
    ensures
        asked_during(s, events, |a: LoginActionView| is_save(a)) <= 1,
        session_after(s, events).phase == PhaseView::Finished(LoginOutcomeView::AuthSucceeded)
            ==> asked_during(s, events, |a: LoginActionView| is_save(a)) == 1,
        session_after(s, events).phase matches PhaseView::Finished(
            LoginOutcomeView::AuthFailed(e),
        ) ==> (asked_during(s, events, |a: LoginActionView| is_save(a)) == 0 <==> !(e is Store)),
{
    lemma_asked_follows_phases(
        s,
        events,
        |a: LoginActionView| is_save(a),
        |p: PhaseView| store_was_asked(p),
    );
}

/// A code is good for one exchange, and there is no second try: whatever
/// events arrive, the exchange is asked for at most once, and only after the
/// caller was told to stop the listener.
pub proof fn lemma_one_exchange(s: LoginSessionView, events: Seq<LoginEventView>)
    requires
        s.phase is Idle,
    ensures
        asked_during(s, events, |a: LoginActionView| is_exchange(a)) <= 1,
        asked_during(s, events, |a: LoginActionView| is_exchange(a)) <= asked_during(
            s,
            events,
            |a: LoginActionView| is_stop(a),
        ),
{
    lemma_asked_follows_phases(
        s,
        events,
        |a: LoginActionView| is_exchange(a),
        |p: PhaseView| exchange_was_asked(p),
    );
    lemma_asked_follows_phases(
        s,
        events,
        |a: LoginActionView| is_stop(a),
        |p: PhaseView| stop_was_asked(p),
    );
}

/// The listener does not outlive the attempt, over a whole attempt:
/// whatever events arrive, the caller is told to start the listener at most
/// once and to stop it at most once; no attempt is over, or at the exchange,
/// while the listener is up; and every attempt that ended after the listener
/// came up, which is every one that did not end on the bind, told the caller
/// to stop it.
pub proof fn lemma_listener_never_outlives_attempt(
    s: LoginSessionView,
    events: Seq<LoginEventView>,
)
    requires
        s.phase is Idle,
    ensures
        asked_during(s, events, |a: LoginActionView| is_start(a)) <= 1,
        asked_during(s, events, |a: LoginActionView| is_stop(a)) <= asked_during(
            s,
            events,
            |a: LoginActionView| is_start(a),
        ),
        session_after(s, events).phase is Finished || session_after(s, events).phase is Exchanging
            || session_after(s, events).phase is Saving ==> !listener_is_up(
            session_after(s, events).phase,
        ),
        session_after(s, events).phase matches PhaseView::Finished(outcome) ==> (asked_during(
            s,
            events,
            |a: LoginActionView| is_stop(a),
        ) == 1 <==> outcome != LoginOutcomeView::AuthFailed(LoginErrorView::ListenerBind)),
{
    lemma_asked_follows_phases(
        s,
        events,
        |a: LoginActionView| is_stop(a),
        |p: PhaseView| stop_was_asked(p),
    );
    lemma_asked_follows_phases(
        s,
        events,
        |a: LoginActionView| is_start(a),
        |p: PhaseView| start_was_asked(p),
    );
    lemma_reachable_outcomes(s, events);
}

/// A browser that does not open is not fatal: the attempt goes on to wait
/// for the code exactly as if it had opened, and the caller is given the URL
/// to show.
pub proof fn lemma_browser_failure_is_not_fatal(s: LoginSessionView)
    requires
        s.phase is Launching,
    ensures
        step(s, LoginEventView::BrowserFailed).0 == step(s, LoginEventView::BrowserOpened).0,
        step(s, LoginEventView::BrowserFailed).0.phase is Waiting,
        step(s, LoginEventView::BrowserFailed).1 == LoginActionView::AwaitCode(Some(s.auth_url)),
{
}

/// Each stage fails in its own way: an attempt comes to a failure only from
/// the stage that the failure belongs to, and on the event that reports it.
pub proof fn lemma_failures_by_stage(s: LoginSessionView, event: LoginEventView)
    requires
        !(s.phase is Finished),
    ensures
        step(s, event).0.phase matches PhaseView::Finished(LoginOutcomeView::AuthFailed(e)) ==> {
            &&& e is ListenerBind ==> s.phase is Binding && event is ListenerBindFailed
            &&& e is Aborted ==> s.phase == PhaseView::Releasing(None) && event is ListenerStopped
            &&& e is TokenExchange ==> s.phase is Exchanging && (event is TokenReply
                || event is Exchanged)
            &&& e is Store ==> s.phase is Saving && event is CredentialSaveFailed
            &&& !(e is Config) && !(e is AuthorizationUrl)
        },
        step(s, event).0.phase == PhaseView::Finished(LoginOutcomeView::AuthSucceeded)
            ==> s.phase is Saving && event is CredentialSaved,
{
}

} // verus!

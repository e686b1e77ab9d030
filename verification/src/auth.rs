//! The login through the authorization service: the service is asked to
//! authorize an e-mail address, the user confirms in the browser, and the
//! service hands out the token.

use vstd::prelude::*;
use vstd::string::*;
use crate::api::{exchange_outcome, exchange_token, exchanged_view, is_success, status_is_success};
use crate::api::{TokenExchangeError, TokenExchangeErrorView, TokenResponse};
use crate::json::{json_string_member, string_member};
use crate::keychain::StoreError;

verus! {

/// Member of the authorization reply that holds the page to open.
pub const REDIRECT_MEMBER: &'static str = "redirect";

/// Member of the authorization reply that holds the request's handle.
pub const REQ_MEMBER: &'static str = "req";

/// Member of the authorization reply that holds the address it is for.
pub const EMAIL_MEMBER: &'static str = "email";

/// What the service answers when it is asked to authorize an address.
#[derive(Debug, PartialEq, Eq)]
pub struct AuthResponse {
    pub redirect: String,
    pub req: String,
    pub email: String,
}

/// Why the service did not open an authorization.
#[derive(Debug, PartialEq, Eq)]
pub enum AuthRequestError {
    /// The service answered outside 2xx. Holds the raw body of the answer.
    Rejected(String),
    /// The service answered 2xx, but the body lacks one of the three
    /// members. Holds the raw body of the answer.
    Unreadable(String),
    /// No answer came back. Holds what the transport reported.
    Unreachable(String),
}

/// Why a login failed.
#[derive(Debug, PartialEq, Eq)]
pub enum AuthError {
    /// The authorization was not opened.
    Request(AuthRequestError),
    /// The terminal could not be read or written while waiting for the user.
    Terminal(String),
    /// The token was not handed out.
    TokenExchange(TokenExchangeError),
    /// A token was obtained, but the secure store did not take it.
    Store(StoreError),
}

/// How a login ended.
#[derive(Debug, PartialEq, Eq)]
pub enum AuthOutcome {
    /// No address is configured; the user is told how to set one.
    EmailMissing,
    /// The token is in the secure store.
    Completed,
    Failed(AuthError),
}

/// Where a login stands.
#[derive(Debug, PartialEq, Eq)]
pub enum AuthPhase {
    /// Nothing has been asked for yet.
    Idle,
    /// The service was asked to authorize the address.
    Authorizing,
    /// The browser was asked to open the service's page.
    Launching(AuthResponse),
    /// The user is in the browser; the login waits for the ENTER key.
    Confirming(AuthResponse),
    /// The service was asked for the token.
    Exchanging,
    /// The store was asked to keep the token.
    Saving,
    /// The login is over.
    Finished(AuthOutcome),
}

/// What happened outside since the last step.
#[derive(Debug, PartialEq, Eq)]
pub enum AuthEvent {
    /// The caller wants the login to start.
    Begin,
    /// The service answered the authorization request.
    AuthorizationReply { status: u16, body: String },
    /// The authorization request ended, with the service's answer or the
    /// reason there is none.
    Authorized(Result<AuthResponse, AuthRequestError>),
    /// The browser was launched.
    BrowserOpened,
    /// The browser could not be launched.
    BrowserFailed,
    /// The user pressed ENTER.
    Confirmed,
    /// The terminal failed while the login waited for the user.
    TerminalFailed(String),
    /// The service answered the token request.
    TokenReply { status: u16, body: String },
    /// The token request ended, with the token or the reason there is none.
    Exchanged(Result<TokenResponse, TokenExchangeError>),
    /// The store kept the token.
    CredentialSaved,
    /// The store did not keep the token.
    CredentialSaveFailed(StoreError),
}

/// What the caller is to do next.
#[derive(Debug, PartialEq, Eq)]
pub enum AuthAction {
    /// Send a GET to the address and come back with the answer.
    RequestAuthorization(String),
    /// Open the page in the default browser.
    OpenBrowser(String),
    /// Ask the user to press ENTER when done in the browser. Where a page is
    /// given the browser did not open: show it, and warn.
    AwaitConfirmation(Option<String>),
    /// Send a GET to the address and come back with the answer.
    RequestToken(String),
    /// Keep the token for the account in the secure store.
    SaveCredential { account: String, token: String },
    /// Tell the user how the login ended.
    Report,
    /// The event has no bearing on the login as it stands.
    Nothing,
}

/// One login through the authorization service.
#[derive(Debug)]
pub struct AuthSession {
    phase: AuthPhase,
    auth_host: String,
    account: String,
}

pub struct AuthResponseView {
    pub redirect: Seq<char>,
    pub req: Seq<char>,
    pub email: Seq<char>,
}

pub enum AuthRequestErrorView {
    Rejected(Seq<char>),
    Unreadable(Seq<char>),
    Unreachable(Seq<char>),
}

pub enum AuthErrorView {
    Request(AuthRequestErrorView),
    Terminal(Seq<char>),
    TokenExchange(TokenExchangeErrorView),
    Store(Seq<char>),
}

pub enum AuthOutcomeView {
    EmailMissing,
    Completed,
    Failed(AuthErrorView),
}

pub enum AuthPhaseView {
    Idle,
    Authorizing,
    Launching(AuthResponseView),
    Confirming(AuthResponseView),
    Exchanging,
    Saving,
    Finished(AuthOutcomeView),
}

pub enum AuthEventView {
    Begin,
    AuthorizationReply { status: u16, body: Seq<char> },
    Authorized(Result<AuthResponseView, AuthRequestErrorView>),
    BrowserOpened,
    BrowserFailed,
    Confirmed,
    TerminalFailed(Seq<char>),
    TokenReply { status: u16, body: Seq<char> },
    Exchanged(Result<Seq<char>, TokenExchangeErrorView>),
    CredentialSaved,
    CredentialSaveFailed(Seq<char>),
}

pub enum AuthActionView {
    RequestAuthorization(Seq<char>),
    OpenBrowser(Seq<char>),
    AwaitConfirmation(Option<Seq<char>>),
    RequestToken(Seq<char>),
    SaveCredential { account: Seq<char>, token: Seq<char> },
    Report,
    Nothing,
}

pub struct AuthSessionView {
    pub phase: AuthPhaseView,
    pub auth_host: Seq<char>,
    pub account: Seq<char>,
}

impl View for AuthResponse {
    type V = AuthResponseView;

    open spec fn view(&self) -> AuthResponseView {
        AuthResponseView { redirect: self.redirect@, req: self.req@, email: self.email@ }
    }
}

impl View for AuthRequestError {
    type V = AuthRequestErrorView;

    open spec fn view(&self) -> AuthRequestErrorView {
        match self {
            AuthRequestError::Rejected(body) => AuthRequestErrorView::Rejected(body@),
            AuthRequestError::Unreadable(body) => AuthRequestErrorView::Unreadable(body@),
            AuthRequestError::Unreachable(reason) => AuthRequestErrorView::Unreachable(reason@),
        }
    }
}

impl View for AuthError {
    type V = AuthErrorView;

    open spec fn view(&self) -> AuthErrorView {
        match self {
            AuthError::Request(e) => AuthErrorView::Request(e@),
            AuthError::Terminal(reason) => AuthErrorView::Terminal(reason@),
            AuthError::TokenExchange(e) => AuthErrorView::TokenExchange(e@),
            AuthError::Store(e) => AuthErrorView::Store(e@),
        }
    }
}

impl View for AuthOutcome {
    type V = AuthOutcomeView;

    open spec fn view(&self) -> AuthOutcomeView {
        match self {
            AuthOutcome::EmailMissing => AuthOutcomeView::EmailMissing,
            AuthOutcome::Completed => AuthOutcomeView::Completed,
            AuthOutcome::Failed(e) => AuthOutcomeView::Failed(e@),
        }
    }
}

impl View for AuthPhase {
    type V = AuthPhaseView;

    open spec fn view(&self) -> AuthPhaseView {
        match self {
            AuthPhase::Idle => AuthPhaseView::Idle,
            AuthPhase::Authorizing => AuthPhaseView::Authorizing,
            AuthPhase::Launching(response) => AuthPhaseView::Launching(response@),
            AuthPhase::Confirming(response) => AuthPhaseView::Confirming(response@),
            AuthPhase::Exchanging => AuthPhaseView::Exchanging,
            AuthPhase::Saving => AuthPhaseView::Saving,
            AuthPhase::Finished(outcome) => AuthPhaseView::Finished(outcome@),
        }
    }
}

impl View for AuthEvent {
    type V = AuthEventView;

    open spec fn view(&self) -> AuthEventView {
        match self {
            AuthEvent::Begin => AuthEventView::Begin,
            AuthEvent::AuthorizationReply { status, body } => AuthEventView::AuthorizationReply {
                status: *status,
                body: body@,
            },
            AuthEvent::Authorized(result) => AuthEventView::Authorized(authorized_view(*result)),
            AuthEvent::BrowserOpened => AuthEventView::BrowserOpened,
            AuthEvent::BrowserFailed => AuthEventView::BrowserFailed,
            AuthEvent::Confirmed => AuthEventView::Confirmed,
            AuthEvent::TerminalFailed(reason) => AuthEventView::TerminalFailed(reason@),
            AuthEvent::TokenReply { status, body } => AuthEventView::TokenReply {
                status: *status,
                body: body@,
            },
            AuthEvent::Exchanged(result) => AuthEventView::Exchanged(exchanged_view(*result)),
            AuthEvent::CredentialSaved => AuthEventView::CredentialSaved,
            AuthEvent::CredentialSaveFailed(e) => AuthEventView::CredentialSaveFailed(e@),
        }
    }
}

impl View for AuthAction {
    type V = AuthActionView;

    open spec fn view(&self) -> AuthActionView {
        match self {
            AuthAction::RequestAuthorization(url) => AuthActionView::RequestAuthorization(url@),
            AuthAction::OpenBrowser(page) => AuthActionView::OpenBrowser(page@),
            AuthAction::AwaitConfirmation(page) => AuthActionView::AwaitConfirmation(
                page.deep_view(),
            ),
            AuthAction::RequestToken(url) => AuthActionView::RequestToken(url@),
            AuthAction::SaveCredential { account, token } => AuthActionView::SaveCredential {
                account: account@,
                token: token@,
            },
            AuthAction::Report => AuthActionView::Report,
            AuthAction::Nothing => AuthActionView::Nothing,
        }
    }
}

impl View for AuthSession {
    type V = AuthSessionView;

    closed spec fn view(&self) -> AuthSessionView {
        AuthSessionView {
            phase: self.phase@,
            auth_host: self.auth_host@,
            account: self.account@,
        }
    }
}

/// The address that is asked to authorize `email`.
pub open spec fn authorize_address(auth_host: Seq<char>, email: Seq<char>) -> Seq<char> {
    auth_host + "/auth/authorize?email="@ + email
}

/// The address that hands out the token of an authorization.
pub open spec fn token_address(auth_host: Seq<char>, req: Seq<char>, email: Seq<char>) -> Seq<
    char,
> {
    auth_host + "/auth/token?req="@ + req + "&email="@ + email
}

/// What an answer to the authorization request amounts to, where
/// `redirect`, `req` and `email` are the strings that its body holds under
/// those names: outside 2xx the service rejected the request, and the error
/// carries the raw body; within 2xx the three strings are the answer, and a
/// body that lacks one of them is unreadable.
pub open spec fn authorization_outcome(
    status: u16,
    body: Seq<char>,
    redirect: Option<Seq<char>>,
    req: Option<Seq<char>>,
    email: Option<Seq<char>>,
) -> Result<AuthResponseView, AuthRequestErrorView> {
    if !is_success(status) {
        Err(AuthRequestErrorView::Rejected(body))
    } else if redirect is Some && req is Some && email is Some {
        Ok(AuthResponseView { redirect: redirect->0, req: req->0, email: email->0 })
    } else {
        Err(AuthRequestErrorView::Unreadable(body))
    }
}

/// What an answer to the authorization request amounts to.
pub open spec fn authorization_reply(status: u16, body: Seq<char>) -> Result<
    AuthResponseView,
    AuthRequestErrorView,
> {
    authorization_outcome(
        status,
        body,
        json_string_member(body, REDIRECT_MEMBER@),
        json_string_member(body, REQ_MEMBER@),
        json_string_member(body, EMAIL_MEMBER@),
    )
}

/// What is shown for an authorization that was not opened.
pub open spec fn request_error_text(e: AuthRequestErrorView) -> Seq<char> {
    match e {
        AuthRequestErrorView::Rejected(body) => "Auth falied: "@ + body,
        AuthRequestErrorView::Unreadable(body) => "Auth falied: unreadable answer "@ + body,
        AuthRequestErrorView::Unreachable(reason) => "Auth falied: "@ + reason,
    }
}

/// What is shown for a failed login.
pub open spec fn auth_error_text(e: AuthErrorView) -> Seq<char> {
    match e {
        AuthErrorView::Request(e) => request_error_text(e),
        AuthErrorView::Terminal(reason) => reason,
        AuthErrorView::TokenExchange(e) => crate::api::exchange_error_text(e),
        AuthErrorView::Store(reason) => "❌ Failed to set Auth: "@ + reason,
    }
}

/// What is shown at the end of a login.
pub open spec fn auth_outcome_text(outcome: AuthOutcomeView) -> Seq<char> {
    match outcome {
        AuthOutcomeView::EmailMissing =>
            "Please set your email with <command> login --email=<your email>"@,
        AuthOutcomeView::Completed => "✅ Auth completed"@,
        AuthOutcomeView::Failed(e) => auth_error_text(e),
    }
}

/// The view of an authorization or the reason there is none.
pub open spec fn authorized_view(r: Result<AuthResponse, AuthRequestError>) -> Result<
    AuthResponseView,
    AuthRequestErrorView,
> {
    match r {
        Ok(response) => Ok(response@),
        Err(e) => Err(e@),
    }
}

impl AuthSessionView {
    /// The same login in another phase.
    pub open spec fn at(self, phase: AuthPhaseView) -> AuthSessionView {
        AuthSessionView { phase, ..self }
    }

    /// The same login, over, with the error `e`.
    pub open spec fn failed(self, e: AuthErrorView) -> AuthSessionView {
        self.at(AuthPhaseView::Finished(AuthOutcomeView::Failed(e)))
    }
}

/// The login that opens for the configured address, where there is one.
pub open spec fn auth_session_for(auth_host: Seq<char>, email: Option<Seq<char>>) -> Option<
    AuthSessionView,
> {
    match email {
        Some(account) => Some(AuthSessionView { phase: AuthPhaseView::Idle, auth_host, account }),
        None => None,
    }
}

/// One step of a login: the login after `event`, and what the caller is to
/// do next. An event that the phase does not wait for changes nothing.
pub open spec fn auth_step(s: AuthSessionView, event: AuthEventView) -> (
    AuthSessionView,
    AuthActionView,
) {
    match (s.phase, event) {
        (AuthPhaseView::Idle, AuthEventView::Begin) => (
            s.at(AuthPhaseView::Authorizing),
            AuthActionView::RequestAuthorization(authorize_address(s.auth_host, s.account)),
        ),
        (
            AuthPhaseView::Authorizing,
            AuthEventView::AuthorizationReply { status, body },
        ) => after_authorization(s, authorization_reply(status, body)),
        (AuthPhaseView::Authorizing, AuthEventView::Authorized(result)) => after_authorization(
            s,
            result,
        ),
        (AuthPhaseView::Launching(response), AuthEventView::BrowserOpened) => (
            s.at(AuthPhaseView::Confirming(response)),
            AuthActionView::AwaitConfirmation(None),
        ),
        (AuthPhaseView::Launching(response), AuthEventView::BrowserFailed) => (
            s.at(AuthPhaseView::Confirming(response)),
            AuthActionView::AwaitConfirmation(Some(response.redirect)),
        ),
        (AuthPhaseView::Confirming(response), AuthEventView::Confirmed) => (
            s.at(AuthPhaseView::Exchanging),
            AuthActionView::RequestToken(
                token_address(s.auth_host, response.req, response.email),
            ),
        ),
        (AuthPhaseView::Confirming(_), AuthEventView::TerminalFailed(reason)) => (
            s.failed(AuthErrorView::Terminal(reason)),
            AuthActionView::Report,
        ),
        (AuthPhaseView::Exchanging, AuthEventView::TokenReply { status, body }) => after_token(
            s,
            exchange_outcome(status, body),
        ),
        (AuthPhaseView::Exchanging, AuthEventView::Exchanged(result)) => after_token(s, result),
        (AuthPhaseView::Saving, AuthEventView::CredentialSaved) => (
            s.at(AuthPhaseView::Finished(AuthOutcomeView::Completed)),
            AuthActionView::Report,
        ),
        (AuthPhaseView::Saving, AuthEventView::CredentialSaveFailed(reason)) => (
            s.failed(AuthErrorView::Store(reason)),
            AuthActionView::Report,
        ),
        _ => (s, AuthActionView::Nothing),
    }
}

/// The step that ends the authorization request: with the service's answer
/// the browser is sent to its page, without one the login is over.
pub open spec fn after_authorization(
    s: AuthSessionView,
    result: Result<AuthResponseView, AuthRequestErrorView>,
) -> (AuthSessionView, AuthActionView) {
    match result {
        Ok(response) => (
            s.at(AuthPhaseView::Launching(response)),
            AuthActionView::OpenBrowser(response.redirect),
        ),
        Err(e) => (s.failed(AuthErrorView::Request(e)), AuthActionView::Report),
    }
}

/// The step that ends the token request: with a token the store is asked to
/// keep it for the account, without one the login is over and the store is
/// left alone.
pub open spec fn after_token(
    s: AuthSessionView,
    result: Result<Seq<char>, TokenExchangeErrorView>,
) -> (AuthSessionView, AuthActionView) {
    match result {
        Ok(token) => (
            s.at(AuthPhaseView::Saving),
            AuthActionView::SaveCredential { account: s.account, token },
        ),
        Err(e) => (s.failed(AuthErrorView::TokenExchange(e)), AuthActionView::Report),
    }
}

impl AuthRequestError {
    /// The line shown to the user; for a rejected request it ends in the
    /// service's own text.
    pub fn message(&self) -> (r: String)
        ensures
            r@ == request_error_text(self@),
    {
        match self {
            AuthRequestError::Rejected(body) => String::from_str("Auth falied: ").concat(
                body.as_str(),
            ),
            AuthRequestError::Unreadable(body) => String::from_str(
                "Auth falied: unreadable answer ",
            ).concat(body.as_str()),
            AuthRequestError::Unreachable(reason) => String::from_str("Auth falied: ").concat(
                reason.as_str(),
            ),
        }
    }
}

impl AuthError {
    /// The line shown to the user.
    pub fn message(&self) -> (r: String)
        ensures
            r@ == auth_error_text(self@),
    {
        match self {
            AuthError::Request(e) => e.message(),
            AuthError::Terminal(reason) => reason.clone(),
            AuthError::TokenExchange(e) => e.message(),
            AuthError::Store(e) => String::from_str("❌ Failed to set Auth: ").concat(
                e.reason.as_str(),
            ),
        }
    }
}

impl AuthOutcome {
    /// Whether the login failed. A login that did not start for want of an
    /// address did not fail.
    pub fn failed(&self) -> (r: bool)
        ensures
            r == (self@ is Failed),
    {
        match self {
            AuthOutcome::Failed(_) => true,
            _ => false,
        }
    }

    /// The line shown to the user.
    pub fn message(&self) -> (r: String)
        ensures
            r@ == auth_outcome_text(self@),
    {
        match self {
            AuthOutcome::EmailMissing => String::from_str(
                "Please set your email with <command> login --email=<your email>",
            ),
            AuthOutcome::Completed => String::from_str("✅ Auth completed"),
            AuthOutcome::Failed(e) => e.message(),
        }
    }
}

/// The address that is asked to authorize `email`.
pub fn authorize_endpoint(auth_host: &str, email: &str) -> (r: String)
    ensures
        r@ == authorize_address(auth_host@, email@),
{
    String::from_str(auth_host).concat("/auth/authorize?email=").concat(email)
}

/// The address that hands out the token of an authorization.
pub fn token_endpoint(auth_host: &str, req: &str, email: &str) -> (r: String)
    ensures
        r@ == token_address(auth_host@, req@, email@),
{
    String::from_str(auth_host).concat("/auth/token?req=").concat(req).concat("&email=").concat(
        email,
    )
}

/// Reads the answer to the authorization request, given the strings that
/// its body holds under `redirect`, `req` and `email`.
pub fn read_authorization(
    status: u16,
    body: String,
    redirect: Option<String>,
    req: Option<String>,
    email: Option<String>,
) -> (r: Result<AuthResponse, AuthRequestError>)
    ensures
        authorized_view(r) == authorization_outcome(
            status,
            body@,
            redirect.deep_view(),
            req.deep_view(),
            email.deep_view(),
        ),
{
    if !status_is_success(status) {
        return Err(AuthRequestError::Rejected(body));
    }
    match (redirect, req, email) {
        (Some(redirect), Some(req), Some(email)) => Ok(AuthResponse { redirect, req, email }),
        _ => Err(AuthRequestError::Unreadable(body)),
    }
}

/// Reads the answer to the authorization request: its status and its body.
pub fn authorize(status: u16, body: String) -> (r: Result<AuthResponse, AuthRequestError>)
    ensures
        authorized_view(r) == authorization_reply(status, body@),
{
    if !status_is_success(status) {
        return read_authorization(status, body, None, None, None);
    }
    let redirect = string_member(body.as_str(), REDIRECT_MEMBER);
    let req = string_member(body.as_str(), REQ_MEMBER);
    let email = string_member(body.as_str(), EMAIL_MEMBER);
    read_authorization(status, body, redirect, req, email)
}

impl AuthSession {
    /// Opens a login for the configured address at the authorization
    /// service. Without an address there is no login: the user is to be told
    /// how to set one.
    pub fn new(auth_host: &str, email: Option<String>) -> (r: Result<AuthSession, AuthOutcome>)
        ensures
            match r {
                Ok(session) => Some(session@) == auth_session_for(auth_host@, email.deep_view()),
                Err(outcome) => auth_session_for(auth_host@, email.deep_view()) is None
                    && outcome@ == AuthOutcomeView::EmailMissing,
            },
    {
        match email {
            Some(account) => Ok(
                AuthSession {
                    phase: AuthPhase::Idle,
                    auth_host: String::from_str(auth_host),
                    account,
                },
            ),
            None => Err(AuthOutcome::EmailMissing),
        }
    }

    /// The account the login is for.
    pub fn account(&self) -> (r: &str)
        ensures
            r@ == self@.account,
    {
        self.account.as_str()
    }

    /// Where the login stands.
    pub fn phase(&self) -> (r: &AuthPhase)
        ensures
            r@ == self@.phase,
    {
        &self.phase
    }

    /// How the login ended, once it is over.
    pub fn outcome(&self) -> (r: Option<&AuthOutcome>)
        ensures
            match r {
                Some(outcome) => self@.phase == AuthPhaseView::Finished(outcome@),
                None => !(self@.phase is Finished),
            },
    {
        match &self.phase {
            AuthPhase::Finished(outcome) => Some(outcome),
            _ => None,
        }
    }

    /// How the login ended, where it is over; the login is given up.
    pub fn into_outcome(self) -> (r: Option<AuthOutcome>)
        ensures
            match r {
                Some(outcome) => self@.phase == AuthPhaseView::Finished(outcome@),
                None => !(self@.phase is Finished),
            },
    {
        match self.phase {
            AuthPhase::Finished(outcome) => Some(outcome),
            _ => None,
        }
    }
}

/// Advances a login by one event and says what is to be done next. The
/// caller performs the action and comes back with the event that followed.
pub fn authenticate(session: AuthSession, event: AuthEvent) -> (r: (AuthSession, AuthAction))
    ensures
        (r.0@, r.1@) == auth_step(session@, event@),
{
    let AuthSession { phase, auth_host, account } = session;
    let event = match event {
        AuthEvent::AuthorizationReply { status, body } => AuthEvent::Authorized(
            authorize(status, body),
        ),
        AuthEvent::TokenReply { status, body } => AuthEvent::Exchanged(
            exchange_token(status, body),
        ),
        other => other,
    };
    match (phase, event) {
        (AuthPhase::Idle, AuthEvent::Begin) => {
            let url = authorize_endpoint(auth_host.as_str(), account.as_str());
            (
                AuthSession { phase: AuthPhase::Authorizing, auth_host, account },
                AuthAction::RequestAuthorization(url),
            )
        },
        (AuthPhase::Authorizing, AuthEvent::Authorized(Ok(response))) => {
            let page = response.redirect.clone();
            (
                AuthSession { phase: AuthPhase::Launching(response), auth_host, account },
                AuthAction::OpenBrowser(page),
            )
        },
        (AuthPhase::Authorizing, AuthEvent::Authorized(Err(e))) => (
            AuthSession {
                phase: AuthPhase::Finished(AuthOutcome::Failed(AuthError::Request(e))),
                auth_host,
                account,
            },
            AuthAction::Report,
        ),
        (AuthPhase::Launching(response), AuthEvent::BrowserOpened) => (
            AuthSession { phase: AuthPhase::Confirming(response), auth_host, account },
            AuthAction::AwaitConfirmation(None),
        ),
        (AuthPhase::Launching(response), AuthEvent::BrowserFailed) => {
            let page = response.redirect.clone();
            (
                AuthSession { phase: AuthPhase::Confirming(response), auth_host, account },
                AuthAction::AwaitConfirmation(Some(page)),
            )
        },
        (AuthPhase::Confirming(response), AuthEvent::Confirmed) => {
            let url = token_endpoint(
                auth_host.as_str(),
                response.req.as_str(),
                response.email.as_str(),
            );
            (
                AuthSession { phase: AuthPhase::Exchanging, auth_host, account },
                AuthAction::RequestToken(url),
            )
        },
        (AuthPhase::Confirming(_), AuthEvent::TerminalFailed(reason)) => (
            AuthSession {
                phase: AuthPhase::Finished(AuthOutcome::Failed(AuthError::Terminal(reason))),
                auth_host,
                account,
            },
            AuthAction::Report,
        ),
        (AuthPhase::Exchanging, AuthEvent::Exchanged(Ok(token))) => {
            let owner = account.clone();
            (
                AuthSession { phase: AuthPhase::Saving, auth_host, account },
                AuthAction::SaveCredential { account: owner, token: token.access_token },
            )
        },
        (AuthPhase::Exchanging, AuthEvent::Exchanged(Err(e))) => (
            AuthSession {
                phase: AuthPhase::Finished(AuthOutcome::Failed(AuthError::TokenExchange(e))),
                auth_host,
                account,
            },
            AuthAction::Report,
        ),
        (AuthPhase::Saving, AuthEvent::CredentialSaved) => (
            AuthSession { phase: AuthPhase::Finished(AuthOutcome::Completed), auth_host, account },
            AuthAction::Report,
        ),
        (AuthPhase::Saving, AuthEvent::CredentialSaveFailed(e)) => (
            AuthSession {
                phase: AuthPhase::Finished(AuthOutcome::Failed(AuthError::Store(e))),
                auth_host,
                account,
            },
            AuthAction::Report,
        ),
        (phase, _) => (AuthSession { phase, auth_host, account }, AuthAction::Nothing),
    }
}

} // verus!

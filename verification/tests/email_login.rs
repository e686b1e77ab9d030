use tick_cli::api::{TokenExchangeError, TokenResponse};
use tick_cli::auth::{
    authenticate, authorize, authorize_endpoint, read_authorization, token_endpoint, AuthAction,
    AuthError, AuthEvent, AuthOutcome, AuthPhase, AuthRequestError, AuthResponse, AuthSession,
};
use tick_cli::keychain::StoreError;

const GRANT: &str =
    "{\"redirect\":\"https://auth.example/consent?r=1\",\"req\":\"r-1\",\"email\":\"me@example.com\"}";

fn granted() -> AuthResponse {
    AuthResponse {
        redirect: "https://auth.example/consent?r=1".to_string(),
        req: "r-1".to_string(),
        email: "me@example.com".to_string(),
    }
}

fn session() -> AuthSession {
    AuthSession::new("https://auth.example", Some("me@example.com".to_string())).unwrap()
}

#[test]
fn email_login_addresses() {
    assert_eq!(
        authorize_endpoint("https://auth.example", "me@example.com"),
        "https://auth.example/auth/authorize?email=me@example.com"
    );
    assert_eq!(
        token_endpoint("https://auth.example", "r-1", "me@example.com"),
        "https://auth.example/auth/token?req=r-1&email=me@example.com"
    );
}

#[test]
fn email_login_needs_an_address() {
    assert_eq!(
        AuthSession::new("https://auth.example", None).unwrap_err(),
        AuthOutcome::EmailMissing
    );
    assert_eq!(
        AuthOutcome::EmailMissing.message(),
        "Please set your email with <command> login --email=<your email>"
    );
    assert!(!AuthOutcome::EmailMissing.failed());
    assert!(!AuthOutcome::Completed.failed());
    assert_eq!(AuthOutcome::Completed.message(), "✅ Auth completed");
    let failed = AuthOutcome::Failed(AuthError::Terminal("stdin closed".to_string()));
    assert!(failed.failed());
    assert_eq!(failed.message(), "stdin closed");
    assert_eq!(
        AuthError::Store(StoreError { reason: "locked".to_string() }).message(),
        "❌ Failed to set Auth: locked"
    );
    let session = session();
    assert_eq!(session.account(), "me@example.com");
    assert_eq!(session.phase(), &AuthPhase::Idle);
    assert_eq!(session.outcome(), None);
}

#[test]
fn authorization_answers() {
    assert_eq!(authorize(200, GRANT.to_string()), Ok(granted()));
    assert_eq!(
        authorize(403, "forbidden".to_string()),
        Err(AuthRequestError::Rejected("forbidden".to_string()))
    );
    assert_eq!(
        authorize(500, GRANT.to_string()),
        Err(AuthRequestError::Rejected(GRANT.to_string()))
    );
    for body in ["", "{}", "{\"redirect\":\"x\",\"req\":\"y\"}", "{\"redirect\":1,\"req\":\"y\",\"email\":\"z\"}"] {
        assert_eq!(
            authorize(200, body.to_string()),
            Err(AuthRequestError::Unreadable(body.to_string()))
        );
    }
    assert_eq!(
        read_authorization(
            204,
            "b".to_string(),
            Some("x".to_string()),
            Some("y".to_string()),
            Some("z".to_string())
        ),
        Ok(AuthResponse { redirect: "x".to_string(), req: "y".to_string(), email: "z".to_string() })
    );
    assert_eq!(
        read_authorization(200, "b".to_string(), Some("x".to_string()), None, Some("z".to_string())),
        Err(AuthRequestError::Unreadable("b".to_string()))
    );
    assert_eq!(
        AuthRequestError::Rejected("forbidden".to_string()).message(),
        "Auth falied: forbidden"
    );
}

#[test]
fn email_login_from_start_to_stored_token() {
    let (session, action) = authenticate(session(), AuthEvent::Begin);
    assert_eq!(
        action,
        AuthAction::RequestAuthorization(
            "https://auth.example/auth/authorize?email=me@example.com".to_string()
        )
    );
    let (session, action) = authenticate(
        session,
        AuthEvent::AuthorizationReply { status: 200, body: GRANT.to_string() },
    );
    assert_eq!(action, AuthAction::OpenBrowser("https://auth.example/consent?r=1".to_string()));
    assert_eq!(session.phase(), &AuthPhase::Launching(granted()));
    let (session, action) = authenticate(session, AuthEvent::BrowserOpened);
    assert_eq!(action, AuthAction::AwaitConfirmation(None));
    let (session, action) = authenticate(session, AuthEvent::Confirmed);
    assert_eq!(
        action,
        AuthAction::RequestToken(
            "https://auth.example/auth/token?req=r-1&email=me@example.com".to_string()
        )
    );
    let (session, action) = authenticate(
        session,
        AuthEvent::TokenReply { status: 200, body: "{\"access_token\":\"T1\"}".to_string() },
    );
    assert_eq!(
        action,
        AuthAction::SaveCredential {
            account: "me@example.com".to_string(),
            token: "T1".to_string()
        }
    );
    let (session, action) = authenticate(session, AuthEvent::CredentialSaved);
    assert_eq!(action, AuthAction::Report);
    assert_eq!(session.outcome(), Some(&AuthOutcome::Completed));
    let (session, action) = authenticate(session, AuthEvent::Begin);
    assert_eq!(action, AuthAction::Nothing);
    assert_eq!(session.outcome(), Some(&AuthOutcome::Completed));
    assert_eq!(session.into_outcome(), Some(AuthOutcome::Completed));
    assert_eq!(self::session().into_outcome(), None);
}

#[test]
fn email_login_takes_answers_that_were_read_before() {
    let (session, _) = authenticate(session(), AuthEvent::Begin);
    let (session, action) = authenticate(session, AuthEvent::Authorized(Ok(granted())));
    assert_eq!(action, AuthAction::OpenBrowser("https://auth.example/consent?r=1".to_string()));
    let (session, _) = authenticate(session, AuthEvent::BrowserOpened);
    let (session, _) = authenticate(session, AuthEvent::Confirmed);
    let (session, action) = authenticate(
        session,
        AuthEvent::Exchanged(Ok(TokenResponse { access_token: "T2".to_string() })),
    );
    assert_eq!(
        action,
        AuthAction::SaveCredential {
            account: "me@example.com".to_string(),
            token: "T2".to_string()
        }
    );
    assert_eq!(session.phase(), &AuthPhase::Saving);
}

#[test]
fn email_login_shows_the_page_when_the_browser_fails() {
    let (session, _) = authenticate(session(), AuthEvent::Begin);
    let (session, _) = authenticate(
        session,
        AuthEvent::AuthorizationReply { status: 200, body: GRANT.to_string() },
    );
    let (session, action) = authenticate(session, AuthEvent::BrowserFailed);
    assert_eq!(
        action,
        AuthAction::AwaitConfirmation(Some("https://auth.example/consent?r=1".to_string()))
    );
    assert_eq!(session.phase(), &AuthPhase::Confirming(granted()));
}

#[test]
fn email_login_failures() {
    let (session, _) = authenticate(session(), AuthEvent::Begin);
    let (session, action) = authenticate(
        session,
        AuthEvent::AuthorizationReply { status: 401, body: "no".to_string() },
    );
    assert_eq!(action, AuthAction::Report);
    assert_eq!(
        session.outcome(),
        Some(&AuthOutcome::Failed(AuthError::Request(AuthRequestError::Rejected(
            "no".to_string()
        ))))
    );

    let (session, _) = authenticate(self::session(), AuthEvent::Begin);
    let (session, _) =
        authenticate(
            session,
            AuthEvent::Authorized(Err(AuthRequestError::Unreachable("refused".to_string()))),
        );
    assert_eq!(
        session.outcome(),
        Some(&AuthOutcome::Failed(AuthError::Request(AuthRequestError::Unreachable(
            "refused".to_string()
        ))))
    );

    let (session, _) = authenticate(self::session(), AuthEvent::Begin);
    let (session, _) = authenticate(
        session,
        AuthEvent::AuthorizationReply { status: 200, body: GRANT.to_string() },
    );
    let (session, _) = authenticate(session, AuthEvent::BrowserOpened);
    let (session, action) =
        authenticate(session, AuthEvent::TerminalFailed("closed".to_string()));
    assert_eq!(action, AuthAction::Report);
    assert_eq!(
        session.outcome(),
        Some(&AuthOutcome::Failed(AuthError::Terminal("closed".to_string())))
    );
}

#[test]
fn email_login_token_and_store_failures() {
    let to_exchange = || {
        let (session, _) = authenticate(session(), AuthEvent::Begin);
        let (session, _) = authenticate(
            session,
            AuthEvent::AuthorizationReply { status: 200, body: GRANT.to_string() },
        );
        let (session, _) = authenticate(session, AuthEvent::BrowserOpened);
        let (session, _) = authenticate(session, AuthEvent::Confirmed);
        session
    };
    let (session, action) = authenticate(
        to_exchange(),
        AuthEvent::TokenReply { status: 400, body: "pending".to_string() },
    );
    assert_eq!(action, AuthAction::Report);
    assert_eq!(
        session.outcome(),
        Some(&AuthOutcome::Failed(AuthError::TokenExchange(TokenExchangeError::Rejected(
            "pending".to_string()
        ))))
    );
    let (session, _) = authenticate(
        to_exchange(),
        AuthEvent::Exchanged(Err(TokenExchangeError::Unreachable("timed out".to_string()))),
    );
    assert_eq!(
        session.outcome(),
        Some(&AuthOutcome::Failed(AuthError::TokenExchange(TokenExchangeError::Unreachable(
            "timed out".to_string()
        ))))
    );
    let (session, _) = authenticate(
        to_exchange(),
        AuthEvent::TokenReply { status: 200, body: "{\"access_token\":\"T1\"}".to_string() },
    );
    let (session, action) = authenticate(
        session,
        AuthEvent::CredentialSaveFailed(StoreError { reason: "locked".to_string() }),
    );
    assert_eq!(action, AuthAction::Report);
    assert_eq!(
        session.outcome(),
        Some(&AuthOutcome::Failed(AuthError::Store(StoreError { reason: "locked".to_string() })))
    );
}

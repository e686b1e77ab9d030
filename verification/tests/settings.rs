use tick_cli::client::{
    configured_account, init_authenticated_client, init_client, ClientError, ClientSettings,
    HTTP_TIMEOUT_SECS,
};
use tick_cli::config::{
    get, AppConfig, Config, ConfigChange, ConfigError, Environment, OAuthConfig, Setting, APP_NAME,
};
use tick_cli::keychain::{CredentialError, CredentialStore, StoreError, StoreFailure};

fn environment() -> Environment {
    Environment {
        api_host: Some("https://api.example".to_string()),
        auth_host: Some("https://auth.example".to_string()),
        time_zone: Some("Europe/Paris".to_string()),
        api_auth_uri: Some("https://provider.example/oauth/authorize".to_string()),
        api_token_uri: Some("https://provider.example/oauth/token".to_string()),
        api_client: Some("abc".to_string()),
        api_key: Some("s3cret".to_string()),
        csrf_token: Some("xyz".to_string()),
    }
}

fn empty_environment() -> Environment {
    Environment {
        api_host: None,
        auth_host: None,
        time_zone: None,
        api_auth_uri: None,
        api_token_uri: None,
        api_client: None,
        api_key: None,
        csrf_token: None,
    }
}

#[test]
fn config_from_a_full_environment() {
    assert_eq!(
        Config::init(&environment()),
        Ok(Config {
            app_name: "tick-cli".to_string(),
            api_host: "https://api.example".to_string(),
            auth_host: "https://auth.example".to_string(),
            time_zone: "Europe/Paris".to_string(),
        })
    );
    assert_eq!(APP_NAME, "tick-cli");
}

#[test]
fn config_without_a_time_zone_has_an_empty_one() {
    let env = Environment { time_zone: None, ..environment() };
    assert_eq!(Config::init(&env).unwrap().time_zone, "");
}

#[test]
fn config_names_the_first_missing_setting() {
    assert_eq!(
        Config::init(&empty_environment()),
        Err(ConfigError::Missing(Setting::ApiHost))
    );
    let env = Environment { auth_host: None, ..environment() };
    assert_eq!(Config::init(&env), Err(ConfigError::Missing(Setting::AuthHost)));
    // The login settings are not asked of the general configuration.
    let env = Environment { api_client: None, csrf_token: None, ..environment() };
    assert!(Config::init(&env).is_ok());
}

#[test]
fn oauth_config_names_the_first_missing_setting() {
    assert_eq!(
        OAuthConfig::init(&environment()),
        Ok(OAuthConfig {
            api_auth_uri: "https://provider.example/oauth/authorize".to_string(),
            api_token_uri: "https://provider.example/oauth/token".to_string(),
            api_client: "abc".to_string(),
            api_key: "s3cret".to_string(),
            csrf_token: "xyz".to_string(),
        })
    );
    let cases = [
        (Environment { api_auth_uri: None, ..environment() }, Setting::ApiAuthUri),
        (Environment { api_token_uri: None, ..environment() }, Setting::ApiTokenUri),
        (Environment { api_client: None, ..environment() }, Setting::ApiClient),
        (Environment { api_key: None, ..environment() }, Setting::ApiKey),
        (Environment { csrf_token: None, ..environment() }, Setting::CsrfToken),
        (empty_environment(), Setting::ApiAuthUri),
    ];
    for (env, setting) in cases {
        assert_eq!(OAuthConfig::init(&env), Err(ConfigError::Missing(setting)));
    }
}

#[test]
fn config_error_messages() {
    assert_eq!(ConfigError::Missing(Setting::ApiHost).message(), "API_HOST is missing");
    assert_eq!(ConfigError::Missing(Setting::AuthHost).message(), "AUTH_HOST is missing");
    assert_eq!(Setting::ApiAuthUri.env_name(), "API_AUTH_URI");
    assert_eq!(Setting::ApiTokenUri.env_name(), "API_TOKEN_URI");
    assert_eq!(Setting::ApiClient.env_name(), "API_CLIENT");
    assert_eq!(Setting::ApiKey.env_name(), "API_KEY");
    assert_eq!(Setting::CsrfToken.env_name(), "CSRF_TOKEN");
}

#[test]
fn get_fills_the_slot_once() {
    let mut slot: Option<Config> = None;
    let first = get(&mut slot, &environment()).unwrap();
    assert_eq!(first.api_host, "https://api.example");
    assert_eq!(slot.as_ref(), Some(&first));
    // What is in the slot stays, whatever the environment has become.
    let other = Environment {
        api_host: Some("https://elsewhere.example".to_string()),
        ..environment()
    };
    assert_eq!(get(&mut slot, &other), Ok(first.clone()));
    assert_eq!(get(&mut slot, &empty_environment()), Ok(first.clone()));
    assert_eq!(slot, Some(first));
}

#[test]
fn get_leaves_the_slot_empty_on_failure() {
    let mut slot: Option<Config> = None;
    assert_eq!(
        get(&mut slot, &empty_environment()),
        Err(ConfigError::Missing(Setting::ApiHost))
    );
    assert_eq!(slot, None);
    assert!(get(&mut slot, &environment()).is_ok());
    assert!(slot.is_some());
}

#[test]
fn app_config_default_and_changes() {
    let config = AppConfig::default();
    assert_eq!(config, AppConfig { email: None, default_project: String::new() });
    let config = config.update(ConfigChange::Email("user@example.com".to_string()));
    assert_eq!(
        config,
        AppConfig { email: Some("user@example.com".to_string()), default_project: String::new() }
    );
    let config = config.update(ConfigChange::DefaultProject("work".to_string()));
    assert_eq!(
        config,
        AppConfig {
            email: Some("user@example.com".to_string()),
            default_project: "work".to_string()
        }
    );
}

#[test]
fn config_command_options() {
    assert_eq!(
        ConfigChange::asked(Some("a@b.c".to_string()), Some("work".to_string())),
        Some(ConfigChange::Email("a@b.c".to_string()))
    );
    assert_eq!(
        ConfigChange::asked(None, Some("work".to_string())),
        Some(ConfigChange::DefaultProject("work".to_string()))
    );
    assert_eq!(ConfigChange::asked(None, None), None);
    assert_eq!(
        ConfigChange::Email("a@b.c".to_string()).confirmation(),
        "✅ Email saved: a@b.c"
    );
    assert_eq!(
        ConfigChange::DefaultProject("work".to_string()).confirmation(),
        "✅ Default project saved: work"
    );
}

#[test]
fn credential_key_is_service_and_account() {
    let config = Config::init(&environment()).unwrap();
    let key = CredentialStore::key(&config, "me@example.com");
    assert_eq!(key.service, "tick-cli");
    assert_eq!(key.account, "me@example.com");
}

#[test]
fn client_presents_the_token_as_bearer() {
    assert_eq!(
        init_client("T1"),
        ClientSettings { authorization: "Bearer T1".to_string(), timeout_secs: 30 }
    );
    assert_eq!(HTTP_TIMEOUT_SECS, 30);
}

#[test]
fn authenticated_client_needs_an_account_and_a_token() {
    let with_email =
        AppConfig { email: Some("me@example.com".to_string()), default_project: String::new() };
    let without_email = AppConfig::default();
    assert_eq!(configured_account(&with_email), Ok("me@example.com".to_string()));
    assert_eq!(configured_account(&without_email), Err(ClientError::NoEmail));
    assert_eq!(
        init_authenticated_client(&with_email, Ok("T1".to_string())),
        Ok(ClientSettings { authorization: "Bearer T1".to_string(), timeout_secs: 30 })
    );
    assert_eq!(
        init_authenticated_client(&without_email, Ok("T1".to_string())),
        Err(ClientError::NoEmail)
    );
    assert_eq!(
        init_authenticated_client(&with_email, Err(StoreFailure::NoEntry)),
        Err(ClientError::Credential(CredentialError::NotFound))
    );
    assert_eq!(
        init_authenticated_client(&with_email, Err(StoreFailure::Unavailable("locked".into()))),
        Err(ClientError::Credential(CredentialError::Store(StoreError {
            reason: "locked".to_string()
        })))
    );
    assert_eq!(
        ClientError::no_email_message(),
        "No email configured. Run: tick config --email <your-email>"
    );
}

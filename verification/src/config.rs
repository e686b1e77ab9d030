//! Settings of the program: what the environment must supply, and what the
//! user keeps in the configuration file.
//!
//! Reading the environment and the file is the caller's work; this module
//! decides what a complete configuration is.

use vstd::prelude::*;
use vstd::string::*;

verus! {

/// Name under which the program registers its configuration file and its
/// secrets.
pub const APP_NAME: &'static str = "tick-cli";

/// A setting that the environment must supply.
#[derive(Clone, Copy, Debug, PartialEq, Eq, Structural)]
pub enum Setting {
    ApiHost,
    AuthHost,
    ApiAuthUri,
    ApiTokenUri,
    ApiClient,
    ApiKey,
    CsrfToken,
}

/// A required setting is missing.
#[derive(Clone, Copy, Debug, PartialEq, Eq, Structural)]
pub enum ConfigError {
    Missing(Setting),
}

/// What the process found in its surroundings, one value per setting, `None`
/// where nothing was set.
#[derive(Debug, PartialEq, Eq)]
pub struct Environment {
    pub api_host: Option<String>,
    pub auth_host: Option<String>,
    pub time_zone: Option<String>,
    pub api_auth_uri: Option<String>,
    pub api_token_uri: Option<String>,
    pub api_client: Option<String>,
    pub api_key: Option<String>,
    pub csrf_token: Option<String>,
}

/// Settings every command needs.
#[derive(Debug, PartialEq, Eq)]
pub struct Config {
    pub app_name: String,
    pub api_host: String,
    pub auth_host: String,
    pub time_zone: String,
}

/// Settings of the authorization-code login.
#[derive(Debug, PartialEq, Eq)]
pub struct OAuthConfig {
    pub api_auth_uri: String,
    pub api_token_uri: String,
    pub api_client: String,
    pub api_key: String,
    pub csrf_token: String,
}

/// What the user keeps in the configuration file.
#[derive(Debug, PartialEq, Eq)]
pub struct AppConfig {
    pub email: Option<String>,
    pub default_project: String,
}

pub struct EnvironmentView {
    pub api_host: Option<Seq<char>>,
    pub auth_host: Option<Seq<char>>,
    pub time_zone: Option<Seq<char>>,
    pub api_auth_uri: Option<Seq<char>>,
    pub api_token_uri: Option<Seq<char>>,
    pub api_client: Option<Seq<char>>,
    pub api_key: Option<Seq<char>>,
    pub csrf_token: Option<Seq<char>>,
}

pub struct ConfigView {
    pub app_name: Seq<char>,
    pub api_host: Seq<char>,
    pub auth_host: Seq<char>,
    pub time_zone: Seq<char>,
}

pub struct OAuthConfigView {
    pub api_auth_uri: Seq<char>,
    pub api_token_uri: Seq<char>,
    pub api_client: Seq<char>,
    pub api_key: Seq<char>,
    pub csrf_token: Seq<char>,
}

pub struct AppConfigView {
    pub email: Option<Seq<char>>,
    pub default_project: Seq<char>,
}

impl View for Environment {
    type V = EnvironmentView;

    open spec fn view(&self) -> EnvironmentView {
        EnvironmentView {
            api_host: self.api_host.deep_view(),
            auth_host: self.auth_host.deep_view(),
            time_zone: self.time_zone.deep_view(),
            api_auth_uri: self.api_auth_uri.deep_view(),
            api_token_uri: self.api_token_uri.deep_view(),
            api_client: self.api_client.deep_view(),
            api_key: self.api_key.deep_view(),
            csrf_token: self.csrf_token.deep_view(),
        }
    }
}

impl View for Config {
    type V = ConfigView;

    open spec fn view(&self) -> ConfigView {
        ConfigView {
            app_name: self.app_name@,
            api_host: self.api_host@,
            auth_host: self.auth_host@,
            time_zone: self.time_zone@,
        }
    }
}

impl View for OAuthConfig {
    type V = OAuthConfigView;

    open spec fn view(&self) -> OAuthConfigView {
        OAuthConfigView {
            api_auth_uri: self.api_auth_uri@,
            api_token_uri: self.api_token_uri@,
            api_client: self.api_client@,
            api_key: self.api_key@,
            csrf_token: self.csrf_token@,
        }
    }
}

impl View for AppConfig {
    type V = AppConfigView;

    open spec fn view(&self) -> AppConfigView {
        AppConfigView { email: self.email.deep_view(), default_project: self.default_project@ }
    }
}

/// A change the user asks of the configuration file.
#[derive(Debug, PartialEq, Eq)]
pub enum ConfigChange {
    /// Log in with this address from now on.
    Email(String),
    /// Use this project where a command names none.
    DefaultProject(String),
}

pub enum ConfigChangeView {
    Email(Seq<char>),
    DefaultProject(Seq<char>),
}

impl View for ConfigChange {
    type V = ConfigChangeView;

    open spec fn view(&self) -> ConfigChangeView {
        match self {
            ConfigChange::Email(email) => ConfigChangeView::Email(email@),
            ConfigChange::DefaultProject(project) => ConfigChangeView::DefaultProject(project@),
        }
    }
}

/// The configuration after a change: the one setting is replaced, the other
/// stays.
pub open spec fn updated(config: AppConfigView, change: ConfigChangeView) -> AppConfigView {
    match change {
        ConfigChangeView::Email(email) => AppConfigView { email: Some(email), ..config },
        ConfigChangeView::DefaultProject(project) => AppConfigView {
            default_project: project,
            ..config
        },
    }
}

/// The change that the options of the `config` command ask for: an address
/// before a project, and nothing where neither is given.
pub open spec fn change_asked(email: Option<Seq<char>>, project: Option<Seq<char>>) -> Option<
    ConfigChangeView,
> {
    match email {
        Some(email) => Some(ConfigChangeView::Email(email)),
        None => match project {
            Some(project) => Some(ConfigChangeView::DefaultProject(project)),
            None => None,
        },
    }
}

/// The general settings that `env` amounts to: the first required setting
/// that is missing, else the configuration. A missing time zone is empty.
pub open spec fn config_from(env: EnvironmentView) -> Result<ConfigView, ConfigError> {
    if env.api_host is None {
        Err(ConfigError::Missing(Setting::ApiHost))
    } else if env.auth_host is None {
        Err(ConfigError::Missing(Setting::AuthHost))
    } else {
        Ok(
            ConfigView {
                app_name: APP_NAME@,
                api_host: env.api_host->0,
                auth_host: env.auth_host->0,
                time_zone: match env.time_zone {
                    Some(zone) => zone,
                    None => Seq::empty(),
                },
            },
        )
    }
}

/// The login settings that `env` amounts to: the first required setting that
/// is missing, else the settings.
pub open spec fn oauth_config_from(env: EnvironmentView) -> Result<OAuthConfigView, ConfigError> {
    if env.api_auth_uri is None {
        Err(ConfigError::Missing(Setting::ApiAuthUri))
    } else if env.api_token_uri is None {
        Err(ConfigError::Missing(Setting::ApiTokenUri))
    } else if env.api_client is None {
        Err(ConfigError::Missing(Setting::ApiClient))
    } else if env.api_key is None {
        Err(ConfigError::Missing(Setting::ApiKey))
    } else if env.csrf_token is None {
        Err(ConfigError::Missing(Setting::CsrfToken))
    } else {
        Ok(
            OAuthConfigView {
                api_auth_uri: env.api_auth_uri->0,
                api_token_uri: env.api_token_uri->0,
                api_client: env.api_client->0,
                api_key: env.api_key->0,
                csrf_token: env.csrf_token->0,
            },
        )
    }
}

/// The view of a configuration result.
pub open spec fn view_of<T: View>(r: Result<T, ConfigError>) -> Result<T::V, ConfigError> {
    match r {
        Ok(value) => Ok(value@),
        Err(e) => Err(e),
    }
}

/// The environment variable that holds a setting.
pub open spec fn env_name_of(setting: Setting) -> Seq<char> {
    match setting {
        Setting::ApiHost => "API_HOST"@,
        Setting::AuthHost => "AUTH_HOST"@,
        Setting::ApiAuthUri => "API_AUTH_URI"@,
        Setting::ApiTokenUri => "API_TOKEN_URI"@,
        Setting::ApiClient => "API_CLIENT"@,
        Setting::ApiKey => "API_KEY"@,
        Setting::CsrfToken => "CSRF_TOKEN"@,
    }
}

impl Setting {
    /// The environment variable that holds the setting.
    pub fn env_name(&self) -> (r: &'static str)
        ensures
            r@ == env_name_of(*self),
    {
        match self {
            Setting::ApiHost => "API_HOST",
            Setting::AuthHost => "AUTH_HOST",
            Setting::ApiAuthUri => "API_AUTH_URI",
            Setting::ApiTokenUri => "API_TOKEN_URI",
            Setting::ApiClient => "API_CLIENT",
            Setting::ApiKey => "API_KEY",
            Setting::CsrfToken => "CSRF_TOKEN",
        }
    }
}

impl ConfigError {
    /// The setting that is missing.
    pub open spec fn setting(self) -> Setting {
        match self {
            ConfigError::Missing(setting) => setting,
        }
    }

    /// The line shown to the user.
    pub fn message(&self) -> (r: String)
        ensures
            r@ == env_name_of(self.setting()) + " is missing"@,
    {
        match self {
            ConfigError::Missing(setting) => String::from_str(setting.env_name()).concat(
                " is missing",
            ),
        }
    }
}

impl Clone for Config {
    fn clone(&self) -> (r: Self)
        ensures
            r@ == self@,
    {
        Config {
            app_name: self.app_name.clone(),
            api_host: self.api_host.clone(),
            auth_host: self.auth_host.clone(),
            time_zone: self.time_zone.clone(),
        }
    }
}

impl Config {
    /// Builds the general settings from what the environment supplied.
    pub fn init(env: &Environment) -> (r: Result<Config, ConfigError>)
        ensures
            view_of(r) == config_from(env@),
    {
        let api_host = match &env.api_host {
            Some(host) => host.clone(),
            None => {
                return Err(ConfigError::Missing(Setting::ApiHost));
            },
        };
        let auth_host = match &env.auth_host {
            Some(host) => host.clone(),
            None => {
                return Err(ConfigError::Missing(Setting::AuthHost));
            },
        };
        let time_zone = match &env.time_zone {
            Some(zone) => zone.clone(),
            None => String::new(),
        };
        Ok(Config { app_name: String::from_str(APP_NAME), api_host, auth_host, time_zone })
    }
}

impl OAuthConfig {
    /// Builds the login settings from what the environment supplied.
    pub fn init(env: &Environment) -> (r: Result<OAuthConfig, ConfigError>)
        ensures
            view_of(r) == oauth_config_from(env@),
    {
        let api_auth_uri = match &env.api_auth_uri {
            Some(value) => value.clone(),
            None => {
                return Err(ConfigError::Missing(Setting::ApiAuthUri));
            },
        };
        let api_token_uri = match &env.api_token_uri {
            Some(value) => value.clone(),
            None => {
                return Err(ConfigError::Missing(Setting::ApiTokenUri));
            },
        };
        let api_client = match &env.api_client {
            Some(value) => value.clone(),
            None => {
                return Err(ConfigError::Missing(Setting::ApiClient));
            },
        };
        let api_key = match &env.api_key {
            Some(value) => value.clone(),
            None => {
                return Err(ConfigError::Missing(Setting::ApiKey));
            },
        };
        let csrf_token = match &env.csrf_token {
            Some(value) => value.clone(),
            None => {
                return Err(ConfigError::Missing(Setting::CsrfToken));
            },
        };
        Ok(OAuthConfig { api_auth_uri, api_token_uri, api_client, api_key, csrf_token })
    }
}

impl ConfigChange {
    /// The change that the options of the `config` command ask for.
    pub fn asked(email: Option<String>, project: Option<String>) -> (r: Option<ConfigChange>)
        ensures
            match r {
                Some(change) => change_asked(email.deep_view(), project.deep_view()) == Some(
                    change@,
                ),
                None => change_asked(email.deep_view(), project.deep_view()) is None,
            },
    {
        match email {
            Some(email) => Some(ConfigChange::Email(email)),
            None => match project {
                Some(project) => Some(ConfigChange::DefaultProject(project)),
                None => None,
            },
        }
    }

    /// The line that confirms the change.
    pub fn confirmation(&self) -> (r: String)
        ensures
            r@ == match self@ {
                ConfigChangeView::Email(email) => "✅ Email saved: "@ + email,
                ConfigChangeView::DefaultProject(project) => "✅ Default project saved: "@
                    + project,
            },
    {
        match self {
            ConfigChange::Email(email) => String::from_str("✅ Email saved: ").concat(
                email.as_str(),
            ),
            ConfigChange::DefaultProject(project) => String::from_str(
                "✅ Default project saved: ",
            ).concat(project.as_str()),
        }
    }
}

impl AppConfig {
    /// Applies a change to the configuration as it was loaded; the caller
    /// stores the result.
    pub fn update(self, change: ConfigChange) -> (r: AppConfig)
        ensures
            r@ == updated(self@, change@),
    {
        match change {
            ConfigChange::Email(email) => AppConfig {
                email: Some(email),
                default_project: self.default_project,
            },
            ConfigChange::DefaultProject(project) => AppConfig {
                email: self.email,
                default_project: project,
            },
        }
    }
}

impl Default for AppConfig {
    fn default() -> (r: Self)
        ensures
            r@ == (AppConfigView { email: None, default_project: Seq::empty() }),
    {
        AppConfig { email: None, default_project: String::new() }
    }
}

/// The general settings of the process: those already in `slot`, or, where
/// the slot is empty, those the environment amounts to, which then fill the
/// slot. What is in the slot is never replaced, and a failure leaves it empty.
pub fn get(slot: &mut Option<Config>, env: &Environment) -> (r: Result<Config, ConfigError>)
    ensures
        match *old(slot) {
            Some(kept) => view_of(r) == Ok::<ConfigView, ConfigError>(kept@) && *final(slot)
                == *old(slot),
            None => view_of(r) == config_from(env@) && match r {
                Ok(config) => *final(slot) matches Some(kept) && kept@ == config@,
                Err(_) => *final(slot) is None,
            },
        },
{
    match slot {
        Some(config) => Ok(config.clone()),
        None => {
            match Config::init(env) {
                Ok(config) => {
                    let copy = config.clone();
                    *slot = Some(config);
                    Ok(copy)
                },
                Err(e) => Err(e),
            }
        },
    }
}

} // verus!

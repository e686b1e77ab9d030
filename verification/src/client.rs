//! The settings of the HTTP client that talks to the task service once the
//! user is logged in.

use vstd::prelude::*;
use vstd::string::*;
use crate::config::{AppConfig, AppConfigView};
use crate::keychain::{get_outcome, read_view};
use crate::keychain::{CredentialError, CredentialErrorView, CredentialStore, StoreFailure, StoreFailureView};

verus! {

/// Seconds after which a request is given up.
pub const HTTP_TIMEOUT_SECS: u64 = 30;

/// What the HTTP client is built with.
#[derive(Debug, PartialEq, Eq)]
pub struct ClientSettings {
    /// Value of the `Authorization` header of every request.
    pub authorization: String,
    /// Seconds after which a request is given up.
    pub timeout_secs: u64,
}

/// Why there is no authenticated client.
#[derive(Debug, PartialEq, Eq)]
pub enum ClientError {
    /// The configuration names no account.
    NoEmail,
    /// The account's token could not be had from the secure store.
    Credential(CredentialError),
}

pub enum ClientErrorView {
    NoEmail,
    Credential(CredentialErrorView),
}

impl View for ClientSettings {
    type V = (Seq<char>, u64);

    open spec fn view(&self) -> (Seq<char>, u64) {
        (self.authorization@, self.timeout_secs)
    }
}

impl View for ClientError {
    type V = ClientErrorView;

    open spec fn view(&self) -> ClientErrorView {
        match self {
            ClientError::NoEmail => ClientErrorView::NoEmail,
            ClientError::Credential(e) => ClientErrorView::Credential(e@),
        }
    }
}

/// The settings of a client that presents `token` as a bearer credential.
pub open spec fn client_settings(token: Seq<char>) -> (Seq<char>, u64) {
    ("Bearer "@ + token, HTTP_TIMEOUT_SECS)
}

/// The account that the configuration logs in.
pub open spec fn account_in(config: AppConfigView) -> Result<Seq<char>, ClientErrorView> {
    match config.email {
        Some(email) => Ok(email),
        None => Err(ClientErrorView::NoEmail),
    }
}

/// The settings of the authenticated client, given the configuration and
/// what the secure store answered when it was asked for the account's
/// token. Without an account the store's answer does not count.
pub open spec fn authenticated_client(
    config: AppConfigView,
    read: Result<Seq<char>, StoreFailureView>,
) -> Result<(Seq<char>, u64), ClientErrorView> {
    match account_in(config) {
        Ok(_) => match get_outcome(read) {
            Ok(token) => Ok(client_settings(token)),
            Err(e) => Err(ClientErrorView::Credential(e)),
        },
        Err(e) => Err(e),
    }
}

/// The view of a result of setting the client up.
pub open spec fn setup_view(r: Result<ClientSettings, ClientError>) -> Result<
    (Seq<char>, u64),
    ClientErrorView,
> {
    match r {
        Ok(settings) => Ok(settings@),
        Err(e) => Err(e@),
    }
}

impl ClientError {
    /// What is shown where no account is configured.
    pub fn no_email_message() -> (r: &'static str)
        ensures
            r@ == "No email configured. Run: tick config --email <your-email>"@,
    {
        "No email configured. Run: tick config --email <your-email>"
    }
}

/// The settings of a client that presents `token` as a bearer credential.
pub fn init_client(token: &str) -> (r: ClientSettings)
    ensures
        r@ == client_settings(token@),
{
    ClientSettings {
        authorization: String::from_str("Bearer ").concat(token),
        timeout_secs: HTTP_TIMEOUT_SECS,
    }
}

/// The account that the configuration logs in.
pub fn configured_account(config: &AppConfig) -> (r: Result<String, ClientError>)
    ensures
        match r {
            Ok(account) => account_in(config@) == Ok::<Seq<char>, ClientErrorView>(account@),
            Err(e) => account_in(config@) == Err::<Seq<char>, ClientErrorView>(e@),
        },
{
    match &config.email {
        Some(email) => Ok(email.clone()),
        None => Err(ClientError::NoEmail),
    }
}

/// Sets the authenticated client up: the configured account's token, as the
/// secure store gave it, becomes the client's bearer credential.
pub fn init_authenticated_client(config: &AppConfig, read: Result<String, StoreFailure>) -> (r:
    Result<ClientSettings, ClientError>)
    ensures
        setup_view(r) == authenticated_client(config@, read_view(read)),
{
    match configured_account(config) {
        Ok(_) => match CredentialStore::get(read) {
            Ok(token) => Ok(init_client(token.as_str())),
            Err(e) => Err(ClientError::Credential(e)),
        },
        Err(e) => Err(e),
    }
}

} // verus!

//! The credential store: one secret per account in the platform's secure
//! storage, under the program's service name.
//!
//! Talking to the platform store is the caller's work. This module says
//! under which key a secret is kept and what each answer of the store means.

use vstd::prelude::*;
use vstd::string::*;
use crate::config::Config;
use crate::text::same_text;

verus! {

/// What the platform store answered when it did not do what was asked.
#[derive(Debug, PartialEq, Eq)]
pub enum StoreFailure {
    /// The store holds no record under the key.
    NoEntry,
    /// The store could not be used: access denied, store locked, platform
    /// unsupported, or the record unreadable. The text is the store's own.
    Unavailable(String),
}

/// The secure store could not be read or written.
#[derive(Debug, PartialEq, Eq)]
pub struct StoreError {
    /// What the store reported.
    pub reason: String,
}

/// Why no token came back from the store.
#[derive(Debug, PartialEq, Eq)]
pub enum CredentialError {
    /// No record exists for the account.
    NotFound,
    /// The store failed.
    Store(StoreError),
}

pub enum StoreFailureView {
    NoEntry,
    Unavailable(Seq<char>),
}

pub enum CredentialErrorView {
    NotFound,
    Store(Seq<char>),
}

impl View for StoreFailure {
    type V = StoreFailureView;

    open spec fn view(&self) -> StoreFailureView {
        match self {
            StoreFailure::NoEntry => StoreFailureView::NoEntry,
            StoreFailure::Unavailable(reason) => StoreFailureView::Unavailable(reason@),
        }
    }
}

impl View for StoreError {
    type V = Seq<char>;

    open spec fn view(&self) -> Seq<char> {
        self.reason@
    }
}

impl View for CredentialError {
    type V = CredentialErrorView;

    open spec fn view(&self) -> CredentialErrorView {
        match self {
            CredentialError::NotFound => CredentialErrorView::NotFound,
            CredentialError::Store(e) => CredentialErrorView::Store(e@),
        }
    }
}

/// What the store says of a record that is not there.
pub const NO_ENTRY_TEXT: &'static str = "No matching entry found in secure storage";

/// The key of a record in the platform store.
#[derive(Debug, PartialEq, Eq)]
pub struct CredentialKey {
    /// The program's service name.
    pub service: String,
    /// The account the secret belongs to.
    pub account: String,
}

/// The reason a failed write is reported with.
pub open spec fn write_failure_reason(failure: StoreFailureView) -> Seq<char> {
    match failure {
        StoreFailureView::NoEntry => NO_ENTRY_TEXT@,
        StoreFailureView::Unavailable(reason) => reason,
    }
}

/// What a write to the store amounts to.
pub open spec fn save_outcome(written: Result<(), StoreFailureView>) -> Result<(), Seq<char>> {
    match written {
        Ok(()) => Ok(()),
        Err(failure) => Err(write_failure_reason(failure)),
    }
}

/// What a read from the store amounts to.
pub open spec fn get_outcome(read: Result<Seq<char>, StoreFailureView>) -> Result<
    Seq<char>,
    CredentialErrorView,
> {
    match read {
        Ok(token) => Ok(token),
        Err(StoreFailureView::NoEntry) => Err(CredentialErrorView::NotFound),
        Err(StoreFailureView::Unavailable(reason)) => Err(CredentialErrorView::Store(reason)),
    }
}

/// The view of what the store answered to a write.
pub open spec fn written_view(written: Result<(), StoreFailure>) -> Result<(), StoreFailureView> {
    match written {
        Ok(()) => Ok(()),
        Err(failure) => Err(failure@),
    }
}

/// The view of what the store answered to a read.
pub open spec fn read_view(read: Result<String, StoreFailure>) -> Result<
    Seq<char>,
    StoreFailureView,
> {
    match read {
        Ok(token) => Ok(token@),
        Err(failure) => Err(failure@),
    }
}

/// The view of the result of a save.
pub open spec fn saved_view(r: Result<(), StoreError>) -> Result<(), Seq<char>> {
    match r {
        Ok(()) => Ok(()),
        Err(e) => Err(e@),
    }
}

/// The view of the result of a fetch.
pub open spec fn fetched_view(r: Result<String, CredentialError>) -> Result<
    Seq<char>,
    CredentialErrorView,
> {
    match r {
        Ok(token) => Ok(token@),
        Err(e) => Err(e@),
    }
}

/// The secure store of the program's tokens.
#[derive(Debug, PartialEq, Eq)]
pub struct CredentialStore;

impl CredentialStore {
    /// The key under which the token of `user` is kept.
    pub fn key(config: &Config, user: &str) -> (r: CredentialKey)
        ensures
            r.service@ == config.app_name@,
            r.account@ == user@,
    {
        CredentialKey { service: config.app_name.clone(), account: String::from_str(user) }
    }

    /// The result of saving a token, given what the store answered to the
    /// write. Any failure of the store is a `StoreError`.
    pub fn save(written: Result<(), StoreFailure>) -> (r: Result<(), StoreError>)
        ensures
            saved_view(r) == save_outcome(written_view(written)),
    {
        match written {
            Ok(()) => Ok(()),
            Err(StoreFailure::NoEntry) => Err(
                StoreError { reason: String::from_str(NO_ENTRY_TEXT) },
            ),
            Err(StoreFailure::Unavailable(reason)) => Err(StoreError { reason }),
        }
    }

    /// Whether what was read back after a write is the token that was
    /// written.
    pub fn verified(token: &str, read_back: &Result<String, StoreFailure>) -> (r: bool)
        ensures
            r == (*read_back matches Ok(stored) && stored@ == token@),
    {
        match read_back {
            Ok(stored) => same_text(stored.as_str(), token),
            Err(_) => false,
        }
    }

    /// The result of fetching a token, given what the store answered to the
    /// read: the token, `NotFound` where the store holds no record for the
    /// account, a `StoreError` for any other failure.
    pub fn get(read: Result<String, StoreFailure>) -> (r: Result<String, CredentialError>)
        ensures
            fetched_view(r) == get_outcome(read_view(read)),
    {
        match read {
            Ok(token) => Ok(token),
            Err(StoreFailure::NoEntry) => Err(CredentialError::NotFound),
            Err(StoreFailure::Unavailable(reason)) => Err(
                CredentialError::Store(StoreError { reason }),
            ),
        }
    }
}

/// The records of a store that keeps what it is given: the secret of each
/// account that has one.
pub type Records = Map<Seq<char>, Seq<char>>;

/// What a store that keeps what it is given answers to a read.
pub open spec fn answer_to_read(records: Records, account: Seq<char>) -> Result<
    Seq<char>,
    StoreFailureView,
> {
    if records.contains_key(account) {
        Ok(records[account])
    } else {
        Err(StoreFailureView::NoEntry)
    }
}

/// Round trip, against a store that keeps what it is given: once a token was
/// written for an account, a fetch for that account gives that token,
/// whatever was there before, and other accounts are as they were; a fetch
/// for an account that nothing was written for is `NotFound`.
pub proof fn lemma_round_trip(
    records: Records,
    account: Seq<char>,
    token: Seq<char>,
    other: Seq<char>,
)
    ensures
        get_outcome(answer_to_read(records.insert(account, token), account)) == Ok::<
            Seq<char>,
            CredentialErrorView,
        >(token),
        other != account ==> get_outcome(answer_to_read(records.insert(account, token), other))
            == get_outcome(answer_to_read(records, other)),
        !records.contains_key(other) ==> get_outcome(answer_to_read(records, other)) == Err::<
            Seq<char>,
            CredentialErrorView,
        >(CredentialErrorView::NotFound),
{
}

} // verus!

//! What the application knows between its pages: the account that is open,
//! the session it belongs to, and the configuration of the ledger service.

use crate::artifact::{CeremonyParams, IoError, SignInputRecord};
use crate::state::{StateModel, TransactionState};
use vstd::prelude::*;
use vstd::string::*;

verus! {

/// The pages of the application.
#[derive(Clone, Copy, Debug, PartialEq, Eq, Structural)]
pub enum Route {
    /// Where a session is created or an account is opened.
    Home,
    /// Where the open account is shown and transactions begin.
    Dashboard,
}

impl Route {
    /// The address of the page.
    pub open spec fn address(self) -> Seq<char> {
        match self {
            Route::Home => "/"@,
            Route::Dashboard => "/dashboard"@,
        }
    }

    /// The address of the page.
    pub fn path(&self) -> (path: &'static str)
        ensures
            path@ == self.address(),
    {
        match self {
            Route::Home => "/",
            Route::Dashboard => "/dashboard",
        }
    }
}

/// Where the ledger service is and the key that it asks for.
#[derive(Debug, PartialEq, Eq)]
pub struct ConfigFile {
    pub url: String,
    pub key: String,
}

/// Mathematical value of a [`ConfigFile`].
pub struct ConfigModel {
    pub url: Seq<char>,
    pub key: Seq<char>,
}

impl View for ConfigFile {
    type V = ConfigModel;

    open spec fn view(&self) -> ConfigModel {
        ConfigModel { url: self.url@, key: self.key@ }
    }
}

impl Clone for ConfigFile {
    fn clone(&self) -> (copy: Self)
        ensures
            copy == *self,
    {
        ConfigFile { url: self.url.clone(), key: self.key.clone() }
    }
}

impl ConfigFile {
    /// A configuration with nothing filled in.
    pub fn new() -> (config: Self)
        ensures
            config@.url.len() == 0,
            config@.key.len() == 0,
    {
        ConfigFile { url: String::new(), key: String::new() }
    }
}

/// The variables shared across the application.
#[derive(Debug, PartialEq, Eq)]
pub struct AppState {
    /// Path of the account's file.
    pub account_path: String,
    /// Nano account currently open.
    pub nano_account: String,
    /// Public share that identifies the user inside the group, in hexadecimal.
    pub public_share: String,
    /// Parameters of the account's session.
    pub frost_state: CeremonyParams,
    /// Configuration of the ledger service.
    pub config_file: ConfigFile,
    /// Path of the configuration file.
    pub config_file_path: String,
}

/// Mathematical value of an [`AppState`].
pub struct AppModel {
    pub account_path: Seq<char>,
    pub nano_account: Seq<char>,
    pub public_share: Seq<char>,
    pub frost_state: CeremonyParams,
    pub config_file: ConfigModel,
    pub config_file_path: Seq<char>,
}

impl View for AppState {
    type V = AppModel;

    open spec fn view(&self) -> AppModel {
        AppModel {
            account_path: self.account_path@,
            nano_account: self.nano_account@,
            public_share: self.public_share@,
            frost_state: self.frost_state,
            config_file: self.config_file@,
            config_file_path: self.config_file_path@,
        }
    }
}

impl Clone for AppState {
    fn clone(&self) -> (copy: Self)
        ensures
            copy == *self,
    {
        AppState {
            account_path: self.account_path.clone(),
            nano_account: self.nano_account.clone(),
            public_share: self.public_share.clone(),
            frost_state: self.frost_state,
            config_file: self.config_file.clone(),
            config_file_path: self.config_file_path.clone(),
        }
    }
}

/// An account's record as it was read, with the account's address.
#[derive(Debug, PartialEq, Eq)]
pub struct OpenedAccount {
    pub record: SignInputRecord,
    /// The address that the ledger knows the aggregated key by.
    pub nano_account: String,
}

/// The digits of hexadecimal notation, in lower case.
pub open spec fn hex_digits() -> Seq<char> {
    seq!['0', '1', '2', '3', '4', '5', '6', '7', '8', '9', 'a', 'b', 'c', 'd', 'e', 'f']
}

/// Bytes in hexadecimal: two digits for each byte, the high half first.
pub open spec fn hex_text(bytes: Seq<u8>) -> Seq<char> {
    Seq::new(
        2 * bytes.len(),
        |i: int|
            if i % 2 == 0 {
                hex_digits()[bytes[i / 2] as int / 16]
            } else {
                hex_digits()[bytes[i / 2] as int % 16]
            },
    )
}

/// Writes bytes in hexadecimal with `hex::encode`, which gives two lower-case
/// digits for each byte, the high half of the byte first.
#[verifier::external_body]
fn hex_encode(bytes: &Vec<u8>) -> (text: String)
    ensures
        text@ == hex_text(bytes@),
{
    hex::encode(bytes)
}

/// The application's state once a record was read, or was not.
///
/// The path is taken down either way. After a record, the account's address,
/// its session and the user's share are those of the record. After a failure
/// they stay as they were.
pub open spec fn opened(
    before: AppModel,
    path: Seq<char>,
    loaded: Result<(crate::artifact::RecordModel, Seq<char>), IoError>,
) -> AppModel {
    match loaded {
        Ok((record, nano_account)) => AppModel {
            account_path: path,
            nano_account,
            public_share: hex_text(record.own_public_share),
            frost_state: record.params,
            ..before
        },
        Err(_) => AppModel { account_path: path, ..before },
    }
}

/// What the user sees once a record was read, or was not, and the page that
/// follows: the dashboard after a record, the same page with the error's
/// message after a failure.
pub open spec fn open_outcome(loaded: Result<(crate::artifact::RecordModel, Seq<char>), IoError>)
    -> (StateModel, Route) {
    match loaded {
        Ok(_) => (StateModel::Successful, Route::Dashboard),
        Err(e) => (StateModel::Error(e.text()), Route::Home),
    }
}

/// Mathematical value of what reading an account gave.
pub open spec fn opened_view(loaded: Result<OpenedAccount, IoError>) -> Result<
    (crate::artifact::RecordModel, Seq<char>),
    IoError,
> {
    match loaded {
        Ok(account) => Ok((account.record@, account.nano_account@)),
        Err(e) => Err(e),
    }
}

impl AppState {
    /// The state at launch: no account is open, and the configuration is what
    /// was found at `config_file_path`.
    pub fn new(config_file: ConfigFile, config_file_path: String) -> (state: Self)
        ensures
            state@ == (AppModel {
                account_path: Seq::empty(),
                nano_account: Seq::empty(),
                public_share: Seq::empty(),
                frost_state: CeremonyParams { participants: 0, threshold: 0 },
                config_file: config_file@,
                config_file_path: config_file_path@,
            }),
    {
        AppState {
            account_path: String::new(),
            nano_account: String::new(),
            public_share: String::new(),
            frost_state: CeremonyParams { participants: 0, threshold: 0 },
            config_file,
            config_file_path,
        }
    }

    /// Opens the account whose record was read from `path`, or takes down
    /// why it could not be read.
    pub fn open_account(&mut self, path: String, loaded: Result<OpenedAccount, IoError>) -> (outcome:
        (TransactionState, Route))
        ensures
            final(self)@ == opened(old(self)@, path@, opened_view(loaded)),
            outcome.0@ == open_outcome(opened_view(loaded)).0,
            outcome.1 == open_outcome(opened_view(loaded)).1,
    {
        self.account_path = path;
        match loaded {
            Ok(account) => {
                self.public_share = hex_encode(account.record.own_public_share());
                self.frost_state = account.record.params();
                self.nano_account = account.nano_account;
                (TransactionState::Successful, Route::Dashboard)
            },
            Err(e) => (TransactionState::Error(e.message()), Route::Home),
        }
    }

    /// Replaces the configuration of the ledger service.
    pub fn configure(&mut self, url: String, key: String)
        ensures
            final(self)@ == (AppModel {
                config_file: ConfigModel { url: url@, key: key@ },
                ..old(self)@
            }),
    {
        self.config_file = ConfigFile { url, key };
    }
}

} // verus!

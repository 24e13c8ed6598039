//! The broker password in the system keyring.
//!
//! The store is the platform's: what a call returns depends on what the
//! user and other programs have done to it. The functions here say what is
//! made of each answer: a missing entry is no error, any other failure is.

use vstd::prelude::*;
use vstd::string::StringExecFns;

verus! {

/// One credential of the keyring.
#[verifier::external_type_specification]
#[verifier::external_body]
pub struct ExEntry(keyring::Entry);

/// A failure of the keyring.
#[verifier::external_type_specification]
#[verifier::external_body]
pub struct ExKeyringError(keyring::Error);

/// What was being done when the keyring failed.
#[derive(Clone, Copy, Debug, PartialEq, Eq, Structural)]
pub enum SecretStage {
    Open,
    Read,
    Write,
    Delete,
}

/// A failure of the keyring: what was being done, and what the keyring said.
#[derive(Debug, Clone, PartialEq, Eq)]
pub struct SecretError {
    pub stage: SecretStage,
    pub detail: String,
}

/// What the keyring answered when asked for the password.
#[derive(Debug)]
pub enum Lookup {
    /// The password.
    Found(String),
    /// No entry is stored.
    Missing,
    /// Any other failure, in the keyring's words.
    Failed(String),
}

/// What the keyring answered when asked to delete the password.
#[derive(Debug)]
pub enum Removal {
    Removed,
    /// No entry was stored.
    Missing,
    /// Any other failure, in the keyring's words.
    Failed(String),
}

impl SecretStage {
    /// What was being done, in words.
    pub open spec fn context_text(self) -> Seq<char> {
        match self {
            SecretStage::Open => "failed to open keyring entry"@,
            SecretStage::Read => "failed to read password from keyring"@,
            SecretStage::Write => "failed to write password to keyring"@,
            SecretStage::Delete => "failed to delete password from keyring"@,
        }
    }

    /// What was being done, in words.
    pub fn context(self) -> (text: &'static str)
        ensures
            text@ == self.context_text(),
    {
        match self {
            SecretStage::Open => "failed to open keyring entry",
            SecretStage::Read => "failed to read password from keyring",
            SecretStage::Write => "failed to write password to keyring",
            SecretStage::Delete => "failed to delete password from keyring",
        }
    }
}

impl SecretError {
    /// The error in one line: what was being done, then what the keyring said.
    pub open spec fn message_text(&self) -> Seq<char> {
        self.stage.context_text() + ": "@ + self.detail@
    }

    /// The error in one line: what was being done, then what the keyring said.
    pub fn message(&self) -> (text: String)
        ensures
            text@ == self.message_text(),
    {
        String::from_str(self.stage.context()).concat(": ").concat(self.detail.as_str())
    }
}

/// The name under which the keyring files this program's entries.
pub const SERVICE_NAME: &'static str = "com.air1.monitor";

/// The account whose password is stored.
pub const ACCOUNT_NAME: &'static str = "air1-mqtt";

/// `keyring::Entry::new`: the entry of a service and a user in the default
/// store. Whether the store can be reached is the platform's to say, so
/// nothing is promised of the result. (The call panics only where a panic
/// in another thread has poisoned the crate's builder lock.)
#[verifier::external_body]
fn entry_new(service: &str, user: &str) -> (r: Result<keyring::Entry, keyring::Error>) {
    keyring::Entry::new(service, user)
}

/// `keyring::Entry::get_password`: the password stored for the entry, or
/// the keyring's error; nothing is promised of which.
#[verifier::external_body]
fn entry_get_password(entry: &keyring::Entry) -> (r: Result<String, keyring::Error>) {
    entry.get_password()
}

/// `keyring::Entry::set_password`: stores a password for the entry, or
/// fails with the keyring's error; nothing is promised of which.
#[verifier::external_body]
fn entry_set_password(entry: &keyring::Entry, secret: &str) -> (r: Result<(), keyring::Error>) {
    entry.set_password(secret)
}

/// `keyring::Entry::delete_credential`: removes what is stored for the
/// entry, or fails with the keyring's error; nothing is promised of which.
#[verifier::external_body]
fn entry_delete_credential(entry: &keyring::Entry) -> (r: Result<(), keyring::Error>) {
    entry.delete_credential()
}

/// Whether a failure is the variant `keyring::Error::NoEntry`. The
/// contract leaves the answer open.
#[verifier::external_body]
fn is_no_entry(error: &keyring::Error) -> (b: bool) {
    match error {
        keyring::Error::NoEntry => true,
        _ => false,
    }
}

/// A failure in the keyring's own words, as the `Display` of
/// `keyring::Error` writes them. Nothing is promised of the text.
#[verifier::external_body]
fn error_text(error: &keyring::Error) -> (text: String) {
    format!("{}", error)
}

/// What the answer to a lookup means: the password where one is stored,
/// none where no entry is stored, an error in every other case.
pub fn password_from(lookup: Lookup) -> (r: Result<Option<String>, SecretError>)
    ensures
        match lookup {
            Lookup::Found(secret) => r == Ok::<Option<String>, SecretError>(Some(secret)),
            Lookup::Missing => r == Ok::<Option<String>, SecretError>(None),
            Lookup::Failed(detail) => r == Err::<Option<String>, SecretError>(
                SecretError { stage: SecretStage::Read, detail },
            ),
        },
{
    match lookup {
        Lookup::Found(secret) => Ok(Some(secret)),
        Lookup::Missing => Ok(None),
        Lookup::Failed(detail) => Err(SecretError { stage: SecretStage::Read, detail }),
    }
}

/// What the answer to a deletion means: success where the entry is gone,
/// whether or not there was one; an error in every other case.
pub fn removal_from(removal: Removal) -> (r: Result<(), SecretError>)
    ensures
        match removal {
            Removal::Removed | Removal::Missing => r is Ok,
            Removal::Failed(detail) => r == Err::<(), SecretError>(
                SecretError { stage: SecretStage::Delete, detail },
            ),
        },
{
    match removal {
        Removal::Removed => Ok(()),
        Removal::Missing => Ok(()),
        Removal::Failed(detail) => Err(SecretError { stage: SecretStage::Delete, detail }),
    }
}

/// Opens this program's entry.
fn open_entry() -> (r: Result<keyring::Entry, SecretError>)
    ensures
        r is Err ==> r->Err_0.stage == SecretStage::Open,
{
    match entry_new(SERVICE_NAME, ACCOUNT_NAME) {
        Ok(entry) => outcome_at(SecretStage::Open, Ok(entry)),
        Err(error) => outcome_at(SecretStage::Open, Err(error_text(&error))),
    }
}

/// Whether the system keyring can be used.
pub fn keyring_available() -> (available: bool) {
    match open_entry() {
        Ok(_) => true,
        Err(_) => false,
    }
}

/// The stored password, or none where nothing is stored. Fails where the
/// keyring cannot be opened or read.
pub fn load_password() -> (r: Result<Option<String>, SecretError>)
    ensures
        r is Err ==> r->Err_0.stage == SecretStage::Open || r->Err_0.stage == SecretStage::Read,
{
    let entry = match open_entry() {
        Ok(entry) => entry,
        Err(error) => {
            return Err(error);
        },
    };
    let lookup = match entry_get_password(&entry) {
        Ok(secret) => Lookup::Found(secret),
        Err(error) => if is_no_entry(&error) {
            Lookup::Missing
        } else {
            Lookup::Failed(error_text(&error))
        },
    };
    password_from(lookup)
}

/// Stores the password. Fails where the keyring cannot be opened or written.
pub fn save_password(secret: &str) -> (r: Result<(), SecretError>)
    ensures
        r is Err ==> r->Err_0.stage == SecretStage::Open || r->Err_0.stage == SecretStage::Write,
{
    let entry = match open_entry() {
        Ok(entry) => entry,
        Err(error) => {
            return Err(error);
        },
    };
    match entry_set_password(&entry, secret) {
        Ok(_) => outcome_at(SecretStage::Write, Ok(())),
        Err(error) => outcome_at(SecretStage::Write, Err(error_text(&error))),
    }
}

/// Deletes the stored password; succeeds where none is stored. Fails where
/// the keyring cannot be opened or the entry cannot be deleted.
pub fn delete_password() -> (r: Result<(), SecretError>)
    ensures
        r is Err ==> r->Err_0.stage == SecretStage::Open || r->Err_0.stage == SecretStage::Delete,
{
    let entry = match open_entry() {
        Ok(entry) => entry,
        Err(error) => {
            return Err(error);
        },
    };
    let removal = match entry_delete_credential(&entry) {
        Ok(_) => Removal::Removed,
        Err(error) => if is_no_entry(&error) {
            Removal::Missing
        } else {
            Removal::Failed(error_text(&error))
        },
    };
    removal_from(removal)
}

/// What an answer of the keyring means at a stage: a success stays what it
/// is, and a failure becomes the error of that stage, with the keyring's
/// words as its detail.
pub fn outcome_at<T>(stage: SecretStage, outcome: Result<T, String>) -> (r: Result<T, SecretError>)
    ensures
        match outcome {
            Ok(value) => r == Ok::<T, SecretError>(value),
            Err(detail) => r == Err::<T, SecretError>(SecretError { stage, detail }),
        },
{
    match outcome {
        Ok(value) => Ok(value),
        Err(detail) => Err(SecretError { stage, detail }),
    }
}

} // verus!

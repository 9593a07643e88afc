//! Secrets kept in the platform's credential store.
//!
//! The store is an outside service: what it holds is not known to the
//! library, so the contracts here state what holds of every answer it can
//! give, and the verified functions that interpret an answer take it as an
//! argument.
pub mod accounts;

use vstd::prelude::*;

use crate::text::{owned, push_str, string_from_chars};

verus! {

/// The service under which every secret of this tool is stored.
pub const SERVICE_NAME: &'static str = "ncl-cli";

/// Makes `keyring::Entry`, an entry of the platform's credential store,
/// known to the verifier as an opaque type; nothing is claimed of it.
#[verifier::external_type_specification]
#[verifier::external_body]
pub struct ExEntry(::keyring::Entry);

/// Why the credential store could not hand back a password.
#[derive(Debug, Clone, PartialEq, Eq)]
pub enum StoreFailure {
    /// The store holds no password for this entry.
    NoEntry,
    /// Any other failure, with the store's description of it.
    Other(String),
}

/// Errors of the keyring operations.
#[derive(Debug, Clone, PartialEq, Eq)]
pub enum KeyringError {
    /// The entry could not be opened in the credential store.
    Access,
    /// Reading the secret failed.
    Read(String),
    /// Storing the secret failed.
    Write(String),
}

impl KeyringError {
    /// The message shown for this error.
    pub fn message(&self) -> (r: String)
        ensures
            r@ == match *self {
                KeyringError::Access => "Failed to access keyring"@,
                KeyringError::Read(m) => "Keyring error: "@ + m@,
                KeyringError::Write(m) => "Failed to store secret in keyring: "@ + m@,
            },
    {
        match self {
            KeyringError::Access => owned("Failed to access keyring"),
            KeyringError::Read(m) => {
                let mut v: Vec<char> = Vec::new();
                push_str(&mut v, "Keyring error: ");
                push_str(&mut v, m.as_str());
                string_from_chars(v.as_slice())
            },
            KeyringError::Write(m) => {
                let mut v: Vec<char> = Vec::new();
                push_str(&mut v, "Failed to store secret in keyring: ");
                push_str(&mut v, m.as_str());
                string_from_chars(v.as_slice())
            },
        }
    }
}

/// Calls `keyring::Entry::new` for this tool's service and the given
/// account. Whether the platform store can be opened is not known here, so
/// nothing is stated of the result; the store's error is dropped.
#[verifier::external_body]
fn open_entry(account: &str) -> Result<::keyring::Entry, ()> {
    ::keyring::Entry::new(SERVICE_NAME, account).map_err(|_| ())
}

/// Calls `keyring::Entry::get_password`. What the store holds is not known
/// here, so nothing is stated of the password; the `NoEntry` error is told
/// apart from the others, which keep the store's description.
#[verifier::external_body]
fn read_password(entry: &::keyring::Entry) -> Result<String, StoreFailure> {
    entry.get_password().map_err(|e| match e {
        ::keyring::Error::NoEntry => StoreFailure::NoEntry,
        other => StoreFailure::Other(other.to_string()),
    })
}

/// Calls `keyring::Entry::set_password`. Whether the store accepts the
/// password is not known here (some stores refuse an empty one), so nothing
/// is stated of the result; a failure keeps the store's description.
#[verifier::external_body]
fn write_password(entry: &::keyring::Entry, secret: &str) -> Result<(), String> {
    entry.set_password(secret).map_err(|e| e.to_string())
}

/// What a read of the store means for the caller: an empty password and a
/// missing entry both mean that no secret is stored.
pub open spec fn lookup_outcome(read: Result<String, StoreFailure>) -> Result<Option<String>, KeyringError> {
    match read {
        Ok(p) => if p@.len() == 0 {
            Ok(None)
        } else {
            Ok(Some(p))
        },
        Err(StoreFailure::NoEntry) => Ok(None),
        Err(StoreFailure::Other(m)) => Err(KeyringError::Read(m)),
    }
}

/// `a` is an answer that `Keyring::get` can give: the entry could not be
/// opened, or the interpretation of what the store returned.
pub open spec fn is_get_answer(a: Result<Option<String>, KeyringError>) -> bool {
    ||| a == Err::<Option<String>, KeyringError>(KeyringError::Access)
    ||| exists|read: Result<String, StoreFailure>| a == #[trigger] lookup_outcome(read)
}

/// `a` is an answer that `Keyring::set` can give: success, an entry that
/// could not be opened, or a write that the store refused.
pub open spec fn is_set_answer(a: Result<(), KeyringError>) -> bool {
    ||| a is Ok
    ||| a == Err::<(), KeyringError>(KeyringError::Access)
    ||| a matches Err(KeyringError::Write(_))
}

/// Interprets the answer of the credential store to a read.
pub fn password_outcome(read: Result<String, StoreFailure>) -> (r: Result<Option<String>, KeyringError>)
    ensures
        r == lookup_outcome(read),
{
    match read {
        Ok(p) => if p.as_str().unicode_len() == 0 {
            Ok(None)
        } else {
            Ok(Some(p))
        },
        Err(StoreFailure::NoEntry) => Ok(None),
        Err(StoreFailure::Other(m)) => Err(KeyringError::Read(m)),
    }
}

/// Keyring wrapper for cross-platform secret storage
pub struct Keyring;

impl Keyring {
    /// Get a secret from the keyring: `None` when nothing (or an empty
    /// secret) is stored for the account.
    pub fn get(account: &str) -> (r: Result<Option<String>, KeyringError>)
        ensures
            r matches Err(KeyringError::Access) || exists|read: Result<String, StoreFailure>|
                r == lookup_outcome(read),
            r matches Ok(Some(s)) ==> s@.len() > 0,
    {
        let entry = match open_entry(account) {
            Ok(e) => e,
            Err(_) => {
                return Err(KeyringError::Access);
            },
        };
        let read = read_password(&entry);
        let r = password_outcome(read);
        assert(r == lookup_outcome(read));
        r
    }

    /// Set a secret in the keyring.
    pub fn set(account: &str, secret: &str) -> (r: Result<(), KeyringError>)
        ensures
            r is Ok || r matches Err(KeyringError::Access) || r matches Err(KeyringError::Write(_)),
    {
        let entry = match open_entry(account) {
            Ok(e) => e,
            Err(_) => {
                return Err(KeyringError::Access);
            },
        };
        match write_password(&entry, secret) {
            Ok(()) => Ok(()),
            Err(m) => Err(KeyringError::Write(m)),
        }
    }

    /// Delete a secret from the keyring.
    ///
    /// Deletion is done by storing an empty secret, on a best-effort basis:
    /// only failing to open the entry is reported.
    pub fn delete(account: &str) -> (r: Result<(), KeyringError>)
        ensures
            r is Ok || r matches Err(KeyringError::Access),
    {
        let entry = match open_entry(account) {
            Ok(e) => e,
            Err(_) => {
                return Err(KeyringError::Access);
            },
        };
        let _ = write_password(&entry, "");
        Ok(())
    }

    /// Check if a secret exists in the keyring: whether `get` finds a
    /// non-empty secret for the account.
    pub fn secret_exists(account: &str) -> (r: bool)
        ensures
            exists|answer: Result<Option<String>, KeyringError>|
                #[trigger] is_get_answer(answer) && r == (answer matches Ok(Some(_))),
            r ==> exists|read: Result<String, StoreFailure>|
                (#[trigger] lookup_outcome(read)) matches Ok(Some(s)) && s@.len() > 0,
    {
        let answer = Keyring::get(account);
        let r = match &answer {
            Ok(Some(_)) => true,
            _ => false,
        };
        assert(is_get_answer(answer));
        r
    }
}

} // verus!

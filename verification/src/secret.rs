//! What the login core asks of the secret store that keeps the credential
//! records: how its failures are told apart, and when a search has found the
//! one record of an account.

use vstd::prelude::*;

verus! {

/// How the secret store can fail.
#[derive(Clone, Copy, Debug, PartialEq, Eq, Structural)]
pub enum SecretStorageError {
    AccessDenied,
    SerializationError,
    IoError,
    UnknownError,
    NotUnique,
}

/// What a failure of the keyring service was, as far as the store tells
/// failures apart.
#[derive(Clone, Copy, Debug, PartialEq, Eq, Structural)]
pub enum KeyringFailure {
    /// The keyring file could not be read or written.
    FileIo,
    /// Another failure of the keyring file.
    FileOther,
    /// The service reported the collection or the item as locked.
    ServiceLocked,
    /// Another failure that the service reported.
    ServiceOther,
    /// The user dismissed the prompt of the service.
    PromptDismissed,
    /// The message bus could not be read or written.
    BusIo,
    /// Another failure of the message bus.
    BusOther,
}

impl From<KeyringFailure> for SecretStorageError {
    fn from(failure: KeyringFailure) -> (error: SecretStorageError) {
        match failure {
            KeyringFailure::FileIo => SecretStorageError::IoError,
            KeyringFailure::FileOther => SecretStorageError::UnknownError,
            KeyringFailure::ServiceLocked => SecretStorageError::AccessDenied,
            KeyringFailure::ServiceOther => SecretStorageError::UnknownError,
            KeyringFailure::PromptDismissed => SecretStorageError::AccessDenied,
            KeyringFailure::BusIo => SecretStorageError::IoError,
            KeyringFailure::BusOther => SecretStorageError::UnknownError,
        }
    }
}

impl vstd::std_specs::convert::FromSpecImpl<KeyringFailure> for SecretStorageError {
    open spec fn obeys_from_spec() -> bool {
        true
    }

    /// A locked service and a dismissed prompt deny access; a failure to read
    /// or write is an I/O error; nothing more is known of the others.
    open spec fn from_spec(failure: KeyringFailure) -> SecretStorageError {
        match failure {
            KeyringFailure::ServiceLocked | KeyringFailure::PromptDismissed => {
                SecretStorageError::AccessDenied
            },
            KeyringFailure::FileIo | KeyringFailure::BusIo => SecretStorageError::IoError,
            _ => SecretStorageError::UnknownError,
        }
    }
}

/// Picks the item to read among the `found` items that a search for one
/// account returned: none where nothing was found, the first where it is the
/// only one. More than one item is a failure of the store.
pub fn single_item(found: usize) -> (picked: Result<Option<usize>, SecretStorageError>)
    ensures
        found == 0 ==> picked == Ok::<Option<usize>, SecretStorageError>(None),
        found == 1 ==> picked == Ok::<Option<usize>, SecretStorageError>(Some(0usize)),
        found > 1 ==> picked == Err::<Option<usize>, SecretStorageError>(
            SecretStorageError::NotUnique,
        ),
{
    if found == 0 {
        Ok(None)
    } else if found > 1 {
        Err(SecretStorageError::NotUnique)
    } else {
        Ok(Some(0))
    }
}

} // verus!

//! Key/value persistence on the browser's storage areas. The host calls are
//! trusted; the library keeps them to plain string keys and values, and the
//! serialized forms are the callers' concern.

use vstd::prelude::*;
use web_sys::Storage;

verus! {

/// Why a storage operation failed.
#[derive(Debug, Clone, Copy, PartialEq, Eq, Structural)]
pub enum StorageError {
    /// No browser window, or the storage area is not offered by the host.
    Unavailable,
    /// The storage area refused the operation.
    OperationFailed,
}

/// Declares web_sys's `Storage` handle; Verus sees nothing of its state.
#[verifier::external_type_specification]
#[verifier::external_body]
pub struct ExStorage(Storage);

/// Relies on web_sys's `window` and `Window::local_storage`: a handle on the
/// browser's local storage area, when the host provides one. A missing
/// window, a denied request and a missing area all read as `None`.
#[verifier::external_body]
fn local_storage_handle() -> Option<Storage> {
    match web_sys::window() {
        Some(w) => match w.local_storage() {
            Ok(s) => s,
            Err(_) => None,
        },
        None => None,
    }
}

/// Relies on web_sys's `window` and `Window::session_storage`: a handle on
/// the browser's session storage area, when the host provides one.
#[verifier::external_body]
fn session_storage_handle() -> Option<Storage> {
    match web_sys::window() {
        Some(w) => match w.session_storage() {
            Ok(s) => s,
            Err(_) => None,
        },
        None => None,
    }
}

/// Relies on web_sys's `Storage::set_item`: stores the value under the key,
/// or reports that the host refused (for instance, a full quota).
#[verifier::external_body]
fn storage_set_item(storage: &Storage, key: &str, value: &str) -> Result<(), ()> {
    match storage.set_item(key, value) {
        Ok(()) => Ok(()),
        Err(_) => Err(()),
    }
}

/// Relies on web_sys's `Storage::get_item`: the value stored under the key.
/// A missing key and a refusal by the host both read as `None`.
#[verifier::external_body]
fn storage_get_item(storage: &Storage, key: &str) -> Option<String> {
    match storage.get_item(key) {
        Ok(v) => v,
        Err(_) => None,
    }
}

/// Relies on web_sys's `Storage::remove_item`: drops the key, or reports
/// that the host refused.
#[verifier::external_body]
fn storage_remove_item(storage: &Storage, key: &str) -> Result<(), ()> {
    match storage.remove_item(key) {
        Ok(()) => Ok(()),
        Err(_) => Err(()),
    }
}

/// Relies on web_sys's `Storage::clear`: empties the storage area, or
/// reports that the host refused.
#[verifier::external_body]
fn storage_clear(storage: &Storage) -> Result<(), ()> {
    match storage.clear() {
        Ok(()) => Ok(()),
        Err(_) => Err(()),
    }
}

/// The browser's local storage area, which outlives the page.
pub struct LocalStorage;

impl LocalStorage {
    /// Stores a value under a key.
    pub fn set_item(key: &str, value: &str) -> Result<(), StorageError> {
        match local_storage_handle() {
            Some(storage) => match storage_set_item(&storage, key, value) {
                Ok(()) => Ok(()),
                Err(()) => Err(StorageError::OperationFailed),
            },
            None => Err(StorageError::Unavailable),
        }
    }

    /// Reads the value stored under a key; a missing key reads as `None`.
    pub fn get_item(key: &str) -> Result<Option<String>, StorageError> {
        match local_storage_handle() {
            Some(storage) => Ok(storage_get_item(&storage, key)),
            None => Err(StorageError::Unavailable),
        }
    }

    /// Drops whatever is stored under a key.
    pub fn remove_item(key: &str) -> Result<(), StorageError> {
        match local_storage_handle() {
            Some(storage) => match storage_remove_item(&storage, key) {
                Ok(()) => Ok(()),
                Err(()) => Err(StorageError::OperationFailed),
            },
            None => Err(StorageError::Unavailable),
        }
    }

    /// Empties the whole storage area.
    pub fn clear() -> Result<(), StorageError> {
        match local_storage_handle() {
            Some(storage) => match storage_clear(&storage) {
                Ok(()) => Ok(()),
                Err(()) => Err(StorageError::OperationFailed),
            },
            None => Err(StorageError::Unavailable),
        }
    }
}

/// The browser's session storage area, scoped to the tab.
pub struct SessionStorage;

impl SessionStorage {
    /// Stores a value under a key.
    pub fn set_item(key: &str, value: &str) -> Result<(), StorageError> {
        match session_storage_handle() {
            Some(storage) => match storage_set_item(&storage, key, value) {
                Ok(()) => Ok(()),
                Err(()) => Err(StorageError::OperationFailed),
            },
            None => Err(StorageError::Unavailable),
        }
    }

    /// Reads the value stored under a key; a missing key reads as `None`.
    pub fn get_item(key: &str) -> Result<Option<String>, StorageError> {
        match session_storage_handle() {
            Some(storage) => Ok(storage_get_item(&storage, key)),
            None => Err(StorageError::Unavailable),
        }
    }

    /// Drops whatever is stored under a key.
    pub fn remove_item(key: &str) -> Result<(), StorageError> {
        match session_storage_handle() {
            Some(storage) => match storage_remove_item(&storage, key) {
                Ok(()) => Ok(()),
                Err(()) => Err(StorageError::OperationFailed),
            },
            None => Err(StorageError::Unavailable),
        }
    }

    /// Empties the whole storage area.
    pub fn clear() -> Result<(), StorageError> {
        match session_storage_handle() {
            Some(storage) => match storage_clear(&storage) {
                Ok(()) => Ok(()),
                Err(()) => Err(StorageError::OperationFailed),
            },
            None => Err(StorageError::Unavailable),
        }
    }
}

} // verus!

//! Credential blobs in the operating system's secret store, and the keys
//! they are filed under.
use vstd::prelude::*;
use crate::error::StoreError;
use crate::text::{chars_of, string_of};

verus! {

#[verifier::external_type_specification]
#[verifier::external_body]
pub struct ExKeyringEntry(keyring::Entry);

#[verifier::external_type_specification]
#[verifier::external_body]
pub struct ExKeyringError(keyring::Error);

/// Relies on `keyring::Entry::new`: an entry for the service and user, or
/// the platform's refusal.
pub assume_specification[ keyring::Entry::new ](service: &str, user: &str) -> (r: Result<
    keyring::Entry,
    keyring::Error,
>);

/// Relies on `keyring::Error`: tells a missing entry and an inaccessible or
/// undecodable store apart from the other failures.
#[verifier::external_body]
fn store_error_of(e: keyring::Error) -> (r: StoreError) {
    match &e {
        keyring::Error::NoEntry => StoreError::Missing,
        keyring::Error::NoStorageAccess(_) => StoreError::Unavailable(e.to_string()),
        keyring::Error::BadEncoding(_) => StoreError::Serialization(e.to_string()),
        _ => StoreError::Backend(e.to_string()),
    }
}

/// Relies on `keyring::Entry::get_password`: the secret stored in the entry.
#[verifier::external_body]
fn entry_get(entry: &keyring::Entry) -> (r: Result<String, StoreError>) {
    match entry.get_password() {
        Ok(s) => Ok(s),
        Err(e) => Err(store_error_of(e)),
    }
}

/// Relies on `keyring::Entry::set_password`: stores the secret in the entry.
#[verifier::external_body]
fn entry_set(entry: &keyring::Entry, secret: &str) -> (r: Result<(), StoreError>) {
    match entry.set_password(secret) {
        Ok(()) => Ok(()),
        Err(e) => Err(store_error_of(e)),
    }
}

/// Relies on `keyring::Entry::delete_credential`: removes the entry's secret.
#[verifier::external_body]
fn entry_delete(entry: &keyring::Entry) -> (r: Result<(), StoreError>) {
    match entry.delete_credential() {
        Ok(()) => Ok(()),
        Err(e) => Err(store_error_of(e)),
    }
}

/// The outcome of a deletion in which a key that holds nothing counts as
/// deleted.
pub open spec fn spec_tolerate_missing(r: Result<(), StoreError>) -> Result<(), StoreError> {
    match r {
        Err(StoreError::Missing) => Ok(()),
        other => other,
    }
}

/// Treats "nothing stored under the key" as a successful deletion; other
/// failures stay.
pub fn tolerate_missing(r: Result<(), StoreError>) -> (out: Result<(), StoreError>)
    ensures
        out == spec_tolerate_missing(r),
{
    match r {
        Err(StoreError::Missing) => Ok(()),
        other => other,
    }
}

pub open spec fn session_key_spec(did: Seq<char>, session_id: Seq<char>) -> Seq<char> {
    did + seq!['_'] + session_id
}

pub open spec fn auth_request_key_spec(state: Seq<char>) -> Seq<char> {
    seq!['a', 'u', 't', 'h', 'r', 'e', 'q', '_'] + state
}

/// The key of a session's credentials: `<did>_<session id>`.
pub fn session_key(did: &str, session_id: &str) -> (r: String)
    ensures
        r@ == session_key_spec(did@, session_id@),
{
    let mut cs = chars_of(did);
    cs.push('_');
    let mut rest = chars_of(session_id);
    cs.append(&mut rest);
    string_of(&cs)
}

/// The key of an authorization request in flight: `authreq_<state>`.
pub fn auth_request_key(state: &str) -> (r: String)
    ensures
        r@ == auth_request_key_spec(state@),
{
    let mut cs = vec!['a', 'u', 't', 'h', 'r', 'e', 'q', '_'];
    let mut rest = chars_of(state);
    cs.append(&mut rest);
    string_of(&cs)
}

/// Password-session credentials as they are kept in the secret store.
#[derive(Debug)]
pub struct StoredPasswordSession {
    pub access_jwt: String,
    pub refresh_jwt: String,
    pub did: String,
    pub session_id: String,
    pub handle: String,
}

/// Serialized blobs in the secret store, one entry per key, under a
/// service name.
#[derive(Debug)]
pub struct KeyringTokenStore {
    pub service: String,
}

impl KeyringTokenStore {
    pub fn new(service: String) -> (r: Self)
        ensures
            r.service@ == service@,
    {
        KeyringTokenStore { service }
    }

    /// The blob stored under `key`, if the store hands one out.
    pub fn get(&self, key: &str) -> (r: Option<String>) {
        match keyring::Entry::new(self.service.as_str(), key) {
            Ok(entry) => match entry_get(&entry) {
                Ok(s) => Some(s),
                Err(_) => None,
            },
            Err(_) => None,
        }
    }

    /// Stores `blob` under `key`.
    pub fn set(&self, key: &str, blob: &str) -> (r: Result<(), StoreError>) {
        match keyring::Entry::new(self.service.as_str(), key) {
            Ok(entry) => entry_set(&entry, blob),
            Err(e) => Err(store_error_of(e)),
        }
    }

    /// Removes what is stored under `key`; a key that holds nothing counts
    /// as removed, so deleting twice is no error.
    pub fn del(&self, key: &str) -> (r: Result<(), StoreError>)
        ensures
            !(r matches Err(StoreError::Missing)),
    {
        let deleted = match keyring::Entry::new(self.service.as_str(), key) {
            Ok(entry) => entry_delete(&entry),
            Err(e) => Err(store_error_of(e)),
        };
        tolerate_missing(deleted)
    }
}

/// Session credentials and authorization requests in the secret store,
/// filed under `<did>_<session id>` and `authreq_<state>`.
#[derive(Debug)]
pub struct KeyringAuthStore {
    pub tokens: KeyringTokenStore,
}

impl KeyringAuthStore {
    pub fn new(service: String) -> (r: Self)
        ensures
            r.tokens.service@ == service@,
    {
        KeyringAuthStore { tokens: KeyringTokenStore::new(service) }
    }

    /// The blob of a session; a session that holds nothing is `Missing`.
    pub fn get_session(&self, did: &str, session_id: &str) -> (r: Result<String, StoreError>)
        ensures
            r matches Err(e) ==> e is Missing,
    {
        let key = session_key(did, session_id);
        match self.tokens.get(key.as_str()) {
            Some(blob) => Ok(blob),
            None => Err(StoreError::Missing),
        }
    }

    /// Stores the blob of a session.
    pub fn upsert_session(&self, did: &str, session_id: &str, blob: &str) -> (r: Result<
        (),
        StoreError,
    >) {
        let key = session_key(did, session_id);
        self.tokens.set(key.as_str(), blob)
    }

    /// Removes a session's credentials; a session that holds nothing counts
    /// as removed.
    pub fn delete_session(&self, did: &str, session_id: &str) -> (r: Result<(), StoreError>)
        ensures
            !(r matches Err(StoreError::Missing)),
    {
        let key = session_key(did, session_id);
        self.tokens.del(key.as_str())
    }

    /// The blob of an authorization request; one that holds nothing is
    /// `Missing`.
    pub fn get_auth_req_info(&self, state: &str) -> (r: Result<String, StoreError>)
        ensures
            r matches Err(e) ==> e is Missing,
    {
        let key = auth_request_key(state);
        match self.tokens.get(key.as_str()) {
            Some(blob) => Ok(blob),
            None => Err(StoreError::Missing),
        }
    }

    /// Stores the blob of an authorization request.
    pub fn save_auth_req_info(&self, state: &str, blob: &str) -> (r: Result<(), StoreError>) {
        let key = auth_request_key(state);
        self.tokens.set(key.as_str(), blob)
    }

    /// Removes an authorization request; one that holds nothing counts as
    /// removed.
    pub fn delete_auth_req_info(&self, state: &str) -> (r: Result<(), StoreError>)
        ensures
            !(r matches Err(StoreError::Missing)),
    {
        let key = auth_request_key(state);
        self.tokens.del(key.as_str())
    }
}

} // verus!

//! The credentials that are currently known.
//!
//! The store is plain state. A program that shares it between tasks puts it
//! behind one lock and swaps whole values, so that a reader sees credentials
//! that are complete or none.

use crate::error::{LcuError, LcuErrorView};
use crate::types::{optional_view, LcuCredentials, LcuCredentialsView};
use vstd::prelude::*;

verus! {

/// Holds the credentials of the client that was found last, or nothing.
#[derive(Debug, PartialEq, Eq)]
pub struct CredentialStore {
    credentials: Option<LcuCredentials>,
}

impl View for CredentialStore {
    type V = Option<LcuCredentialsView>;

    closed spec fn view(&self) -> Option<LcuCredentialsView> {
        optional_view(self.credentials)
    }
}

impl CredentialStore {
    /// A store that holds nothing.
    pub fn new() -> (store: Self)
        ensures
            store@ is None,
    {
        CredentialStore { credentials: None }
    }

    /// Replaces what the store holds.
    pub fn set(&mut self, credentials: Option<LcuCredentials>)
        ensures
            final(self)@ == optional_view(credentials),
    {
        self.credentials = credentials;
    }

    /// Records the outcome of a discovery, and says whether a client was
    /// found.
    pub fn record(&mut self, found: Option<LcuCredentials>) -> (present: bool)
        ensures
            final(self)@ == optional_view(found),
            present == found is Some,
    {
        let present = found.is_some();
        self.credentials = found;
        present
    }

    /// A copy of what the store holds.
    pub fn get(&self) -> (credentials: Option<LcuCredentials>)
        ensures
            optional_view(credentials) == self@,
    {
        match &self.credentials {
            Some(creds) => Some(creds.clone()),
            None => None,
        }
    }

    /// A copy of the credentials, or the error that there are none.
    pub fn require(&self) -> (credentials: Result<LcuCredentials, LcuError>)
        ensures
            match credentials {
                Ok(creds) => self@ == Some(creds@),
                Err(e) => self@ is None && e@ == LcuErrorView::NotConnected,
            },
    {
        match &self.credentials {
            Some(creds) => Ok(creds.clone()),
            None => Err(LcuError::NotConnected),
        }
    }
}

} // verus!

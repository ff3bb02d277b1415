//! The two settings that the process needs before it serves its first
//! request.

use vstd::prelude::*;
use crate::errors::ServerError;

verus! {

/// The startup settings: where the database is, and the secret that keys
/// every password hash. They are read once and never change.
#[derive(Debug, PartialEq, Eq)]
pub struct Settings {
    database_url: String,
    secret_key: String,
}

impl Settings {
    pub closed spec fn url(&self) -> Seq<char> {
        self.database_url@
    }

    pub closed spec fn secret(&self) -> Seq<char> {
        self.secret_key@
    }

    /// The settings made of what the environment held. A missing database
    /// URL or a missing secret is a `ConfigurationError`.
    pub fn from_values(database_url: Option<String>, secret_key: Option<String>) -> (result: Result<
        Settings,
        ServerError,
    >)
        ensures
            match (database_url, secret_key) {
                (Some(url), Some(secret)) => {
                    &&& result is Ok
                    &&& result->Ok_0.url() == url@
                    &&& result->Ok_0.secret() == secret@
                },
                _ => result is Err && result->Err_0 == ServerError::ConfigurationError,
            },
    {
        match (database_url, secret_key) {
            (Some(database_url), Some(secret_key)) => Ok(Settings { database_url, secret_key }),
            _ => Err(ServerError::ConfigurationError),
        }
    }

    /// The connection string of the database.
    pub fn database_url(&self) -> (url: &str)
        ensures
            url@ == self.url(),
    {
        self.database_url.as_str()
    }

    /// The server secret for the password hasher.
    pub fn secret_key(&self) -> (secret: &str)
        ensures
            secret@ == self.secret(),
    {
        self.secret_key.as_str()
    }
}

} // verus!

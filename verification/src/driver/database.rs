//! Where a remote database is, and the connections to it.

use vstd::prelude::*;
use crate::driver::connection::{Connection, ConnectionModel};
use crate::driver::error::Error;
use crate::driver::transaction::{DropBehavior, TransactionBehavior};
use crate::text;
use crate::text::copy_optional;

verus! {

/// A database to be: where it is, and the token that is sent with every request.
pub struct Builder {
    pub url: String,
    pub auth_token: Option<String>,
}

impl Builder {
    /// A database at a URL with one of the schemes `libsql`, `turso`, `https` and
    /// `http`.
    pub fn new_remote(url: String) -> (r: Builder)
        ensures
            r.url@ == url@,
            r.auth_token is None,
    {
        Builder { url, auth_token: None }
    }

    /// Sets the token.
    pub fn with_auth_token(self, token: String) -> (r: Builder)
        ensures
            r.url@ == self.url@,
            text::optional_text(r.auth_token) == Some(token@),
    {
        let mut builder = self;
        builder.auth_token = Some(token);
        builder
    }

    /// The database.
    pub fn build(self) -> (r: Result<Database, Error>)
        ensures
            r matches Ok(db) && db.url@ == self.url@ && text::optional_text(db.auth_token)
                == text::optional_text(self.auth_token),
    {
        Ok(Database { url: self.url, auth_token: self.auth_token })
    }
}

/// A remote database. Nothing is sent before a connection executes something.
pub struct Database {
    pub url: String,
    pub auth_token: Option<String>,
}

impl Database {
    /// A new connection.
    pub fn connect(&self) -> (r: Result<Connection, Error>)
        ensures
            r matches Ok(conn) && conn.valid() && conn@ == (ConnectionModel {
                url: self.url@,
                auth_token: text::optional_text(self.auth_token),
                transaction_behavior: TransactionBehavior::Deferred,
                dangling: DropBehavior::Ignore,
                autocommit: true,
                last_insert_rowid: 0,
                cached: Map::empty(),
            }),
    {
        Ok(Connection::new(self.url.as_str(), copy_optional(&self.auth_token)))
    }
}

} // verus!

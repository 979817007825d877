//! The choice of the database backend and the options to connect to it.

pub mod errors;
pub mod mappings;

use crate::config::DatabaseConfigBase;
use std::sync::Arc;
use vstd::prelude::*;
use vstd::string::StringExecFns;

verus! {

/// How to reach a SQLite database: in memory, or in a file.
#[derive(Debug, PartialEq, Eq)]
pub struct SqliteConnectOptions {
    pub in_memory: Option<bool>,
    pub file_path: Option<String>,
}

/// How to reach a PostgreSQL database.
#[derive(Debug, PartialEq, Eq)]
pub struct PostgresqlConnectOptions {}

/// Options that name neither a memory database nor a file.
#[derive(Clone, Copy, Debug, PartialEq, Eq, Structural)]
pub struct InvalidConnectOptions {}

impl InvalidConnectOptions {
    pub fn message(&self) -> (r: String)
        ensures
            r@ == "Invalid SqliteConnectOptions - either in_memory or file_path must be set"@,
    {
        String::from_str("Invalid SqliteConnectOptions - either in_memory or file_path must be set")
    }
}

impl SqliteConnectOptions {
    /// At least one of the two settings is present.
    pub open spec fn valid(self) -> bool {
        self.in_memory is Some || self.file_path is Some
    }

    /// The options lead to a connection URL: the memory database is asked
    /// for, or a file is named.
    pub open spec fn connectable(self) -> bool {
        self.in_memory == Some(true) || self.file_path is Some
    }

    /// The connection URL of connectable options. The memory database wins
    /// over a file.
    pub open spec fn connect_url(self) -> Seq<char> {
        if self.in_memory == Some(true) {
            "sqlite::memory:"@
        } else {
            "sqlite:/"@ + self.file_path.unwrap()@ + "?mode=rwc"@
        }
    }

    pub fn new_in_memory() -> (r: Arc<SqliteConnectOptions>)
        ensures
            r.in_memory == Some(true),
            r.file_path is None,
            r.connectable(),
    {
        Arc::new(SqliteConnectOptions { in_memory: Some(true), file_path: None })
    }

    /// Accepts options that were read from a database configuration if they
    /// are valid.
    pub fn from_config_base(options: SqliteConnectOptions) -> (r: Result<
        Arc<SqliteConnectOptions>,
        InvalidConnectOptions,
    >)
        ensures
            options.valid() ==> r is Ok && *r->Ok_0 == options,
            !options.valid() ==> r is Err,
    {
        if options.in_memory.is_none() && options.file_path.is_none() {
            return Err(InvalidConnectOptions {  });
        }
        Ok(Arc::new(options))
    }

    pub fn is_connectable(&self) -> (r: bool)
        ensures
            r == self.connectable(),
    {
        match self.in_memory {
            Some(true) => true,
            _ => self.file_path.is_some(),
        }
    }

    pub fn get_connect_url(&self) -> (r: String)
        requires
            self.connectable(),
        ensures
            r@ == self.connect_url(),
    {
        if let Some(in_memory) = self.in_memory {
            if in_memory {
                return String::from_str("sqlite::memory:");
            }
        }
        let file_path = self.file_path.as_ref().unwrap();
        String::from_str("sqlite:/").concat(file_path.as_str()).concat("?mode=rwc")
    }
}

/// The database that a configuration asks for.
#[derive(Clone, Copy, Debug, PartialEq, Eq, Structural)]
pub enum DatabaseBackend {
    /// No database is configured: SQLite in memory.
    DefaultInMemory,
    Sqlite,
    Postgresql,
}

/// The backend that a database section asks for by its version and kind,
/// where `None` stands for a configuration without such a section.
pub open spec fn backend_spec(config: Option<DatabaseConfigBase>) -> Option<DatabaseBackend> {
    match config {
        None => Some(DatabaseBackend::DefaultInMemory),
        Some(config) => if config.api_version@ == "v1"@ && config.kind@ == "sqlite"@ {
            Some(DatabaseBackend::Sqlite)
        } else if config.api_version@ == "v1"@ && config.kind@ == "postgresql"@ {
            Some(DatabaseBackend::Postgresql)
        } else {
            None
        },
    }
}

/// Picks the database backend for a configuration. An unknown version or
/// kind gives `None`.
pub fn try_load_config(config: &Option<DatabaseConfigBase>) -> (r: Option<DatabaseBackend>)
    ensures
        r == backend_spec(*config),
{
    match config {
        None => Some(DatabaseBackend::DefaultInMemory),
        Some(config) => {
            if config.api_version == String::from_str("v1") {
                if config.kind == String::from_str("sqlite") {
                    return Some(DatabaseBackend::Sqlite);
                }
                if config.kind == String::from_str("postgresql") {
                    return Some(DatabaseBackend::Postgresql);
                }
            }
            None
        },
    }
}

} // verus!

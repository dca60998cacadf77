//! Initialization of the application's database: open (or create) the
//! target file, switch it to write-ahead logging, and hand back a
//! pooled connection handle.

use vstd::prelude::*;
use vstd::string::StringExecFns;

use crate::errors::InitError;
use crate::paths;
use crate::sqlite;
use crate::sqlite::SqlitePool;

verus! {

/// Scheme prefix the driver expects in front of the database file path.
pub open spec fn url_prefix() -> Seq<char> {
    "sqlite:"@
}

/// The connection string handed to the driver for a database path.
pub open spec fn connect_url_spec(path: Seq<char>) -> Seq<char> {
    url_prefix() + path
}

/// Builds the driver's connection string for `path`.
pub fn connect_url(path: &str) -> (r: String)
    ensures
        r@ == connect_url_spec(path@),
{
    let mut s = String::from_str("sqlite:");
    s.append(path);
    s
}

/// Owns the pooled connection handle to the initialized database.
pub struct DbManager {
    pub pool: SqlitePool,
}

impl DbManager {
    /// Initializes the database at `db_path`: creates the parent
    /// directory if it is missing, opens or creates the file itself,
    /// connects a pool to it under the `sqlite:` scheme, and switches
    /// the database to write-ahead logging before returning the handle.
    ///
    /// Each error names the step that failed; resolving a home
    /// directory is the caller's business, so that error never comes
    /// out of here.
    pub fn new(db_path: &str) -> (r: Result<DbManager, InitError>)
        ensures
            r matches Err(e) ==> e is Io || e is Connect || e is Pragma,
    {
        let database_url = connect_url(db_path);

        if let Some(parent) = paths::parent_dir(db_path) {
            match sqlite::ensure_dir(parent.as_str()) {
                Ok(()) => (),
                Err(e) => {
                    return Err(InitError::Io(e));
                },
            }
        }
        // Open-or-create the file ahead of the pool: it surfaces
        // filesystem errors early and is deliberately non-fatal, the
        // connect below still gets its own attempt.
        let _file_ok = sqlite::touch_db_file(db_path);

        let pool = match sqlite::connect_pool(database_url.as_str()) {
            Ok(p) => p,
            Err(e) => {
                return Err(InitError::Connect(e));
            },
        };
        match sqlite::set_wal_mode(&pool) {
            Ok(()) => Ok(DbManager { pool }),
            Err(e) => Err(InitError::Pragma(e)),
        }
    }
}

/// Creates an ephemeral in-memory database for isolated testing: a pool
/// of a single connection, switched to write-ahead logging like any
/// other handle. No path is resolved and no directory is touched, so
/// only the connect and pragma steps can fail.
pub fn create_test_db() -> (r: Result<SqlitePool, InitError>)
    ensures
        r matches Err(e) ==> e is Connect || e is Pragma,
{
    let url = connect_url(":memory:");
    let pool = match sqlite::connect_pool_single(url.as_str()) {
        Ok(p) => p,
        Err(e) => {
            return Err(InitError::Connect(e));
        },
    };
    match sqlite::set_wal_mode(&pool) {
        Ok(()) => Ok(pool),
        Err(e) => Err(InitError::Pragma(e)),
    }
}

} // verus!

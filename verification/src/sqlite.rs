//! Trusted boundary around the embedded database driver and the
//! filesystem calls that database initialization needs.
//!
//! Everything here either declares an outside type, wraps a single
//! outside call, or forwards to such a wrapper under a contract; the
//! initialization logic itself lives in `db_manager` and is verified
//! against the contracts stated here.

use vstd::prelude::*;

verus! {

#[verifier::external_type_specification]
#[verifier::external_body]
pub struct ExSqlxError(sqlx::Error);

/// A pooled connection handle to one database file (or to an in-memory
/// database). The driver's pool type is generic over its database
/// backend, which Verus cannot declare, so the pool is held opaquely in
/// a private field and reached only through the trusted calls below.
#[verifier::external_body]
pub struct SqlitePool {
    pool: sqlx::Pool<sqlx::Sqlite>,
}

/// Relies on async_std::fs::create_dir_all: creates the directory and
/// every missing parent; succeeds if they already exist. A failure is
/// wrapped in sqlx::Error::Configuration, the driver's own shape for a
/// failure while setting a connection up.
#[verifier::external_body]
pub(crate) fn ensure_dir(dir: &str) -> (r: Result<(), sqlx::Error>) {
    match async_std::task::block_on(async_std::fs::create_dir_all(dir)) {
        Ok(()) => Ok(()),
        Err(e) => Err(sqlx::Error::Configuration(Box::new(e))),
    }
}

/// Relies on async_std::fs::OpenOptions: opens the file for writing,
/// creating it if absent, and reports only whether that worked. The
/// outcome depends on the filesystem, so nothing more is promised.
#[verifier::external_body]
pub(crate) fn touch_db_file(path: &str) -> (r: bool) {
    let open = async_std::fs::OpenOptions::new().create(true).write(true).open(path);
    match async_std::task::block_on(open) {
        Ok(_) => true,
        Err(_) => false,
    }
}

/// Relies on sqlx::Pool::connect: establishes a pooled connection to the
/// database named by `url`, with the driver's default pool configuration.
#[verifier::external_body]
pub(crate) fn connect_pool(url: &str) -> (r: Result<SqlitePool, sqlx::Error>) {
    match async_std::task::block_on(sqlx::Pool::<sqlx::Sqlite>::connect(url)) {
        Ok(pool) => Ok(SqlitePool { pool }),
        Err(e) => Err(e),
    }
}

/// Relies on sqlx::pool::PoolOptions::connect: establishes a pool capped
/// at a single connection, as the test database uses.
#[verifier::external_body]
pub(crate) fn connect_pool_single(url: &str) -> (r: Result<SqlitePool, sqlx::Error>) {
    let options = sqlx::pool::PoolOptions::<sqlx::Sqlite>::new().max_connections(1);
    match async_std::task::block_on(options.connect(url)) {
        Ok(pool) => Ok(SqlitePool { pool }),
        Err(e) => Err(e),
    }
}

/// Relies on sqlx::query: executes `PRAGMA journal_mode=WAL;` on the
/// pool, switching the database's journal mode to write-ahead logging.
#[verifier::external_body]
pub(crate) fn set_wal_mode(pool: &SqlitePool) -> (r: Result<(), sqlx::Error>) {
    match async_std::task::block_on(sqlx::query("PRAGMA journal_mode=WAL;").execute(&pool.pool)) {
        Ok(_) => Ok(()),
        Err(e) => Err(e),
    }
}

/// Relies on sqlx::query_scalar: executes `SELECT 1`, whose single
/// result row the database engine defines to hold the constant 1.
#[verifier::external_body]
fn fetch_select_one(pool: &SqlitePool) -> (r: Result<i64, sqlx::Error>)
    ensures
        r matches Ok(v) ==> v == 1,
{
    async_std::task::block_on(sqlx::query_scalar("SELECT 1").fetch_one(&pool.pool))
}

/// Relies on sqlx::query_scalar: reads `PRAGMA journal_mode`, which
/// reports the journal mode of the connected database as a lowercase
/// string. The mode is database state, so no value is promised.
#[verifier::external_body]
fn fetch_journal_mode(pool: &SqlitePool) -> (r: Result<String, sqlx::Error>) {
    async_std::task::block_on(sqlx::query_scalar("PRAGMA journal_mode").fetch_one(&pool.pool))
}

impl SqlitePool {
    /// Probes the pool with the constant query `SELECT 1`: whenever the
    /// probe succeeds, the fetched value is exactly 1.
    pub fn select_one(&self) -> (r: Result<i64, sqlx::Error>)
        ensures
            r matches Ok(v) ==> v == 1,
    {
        fetch_select_one(self)
    }

    /// Reports the journal mode the connected database is running in.
    /// The mode is state of the database, not of the arguments, so the
    /// contract promises nothing of the returned name.
    pub fn journal_mode(&self) -> (r: Result<String, sqlx::Error>) {
        fetch_journal_mode(self)
    }
}

} // verus!

//! A local, file-backed database layer for a desktop application:
//! resolves the well-known storage path under the user's home directory,
//! creates the containing directory and the database file when they are
//! missing, opens a pooled connection to it, and switches the database
//! to write-ahead logging before the handle is handed out.

pub mod db_manager;
pub mod errors;
pub mod paths;
pub mod sqlite;

pub use db_manager::DbManager;
pub use db_manager::create_test_db;
pub use errors::InitError;
pub use paths::get_db_path;
pub use paths::get_default_codeclimbers_db_path;
pub use paths::get_default_ebb_db_path;
pub use paths::get_test_db_path;
pub use sqlite::SqlitePool;

//! The error a failed initialization step reports.

use vstd::prelude::*;

verus! {

/// Why initialization failed, named by the step that failed.
#[derive(Debug)]
pub enum InitError {
    /// The environment could not supply a home directory, so no default
    /// path could be resolved.
    HomeDirectory,
    /// The parent directory of the target file could not be created.
    Io(sqlx::Error),
    /// The driver could not establish a connection pool.
    Connect(sqlx::Error),
    /// Write-ahead logging could not be enabled on the new pool.
    Pragma(sqlx::Error),
}

} // verus!

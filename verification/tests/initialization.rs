use ebb_db::db_manager::DbManager;
use ebb_db::db_manager::create_test_db;
use ebb_db::errors::InitError;
use ebb_db::paths::get_test_db_path;

fn unique_dir(tag: &str) -> String {
    let nanos = std::time::SystemTime::now()
        .duration_since(std::time::UNIX_EPOCH)
        .unwrap()
        .as_nanos();
    format!("/tmp/ebb_db_{tag}_{nanos}")
}

#[test]
fn test_db_manager() {
    let db_path = get_test_db_path().unwrap();
    let db_manager = DbManager::new(&db_path).unwrap();
    let result: Result<i64, _> = db_manager.pool.select_one();
    assert_eq!(result.unwrap(), 1);
}

#[test]
fn test_migrations() {
    let _ = create_test_db();
}

#[test]
fn test_db_manager_new() {
    let db_path = get_test_db_path().unwrap();
    let db_manager = DbManager::new(&db_path).unwrap();
    let result: Result<i64, _> = db_manager.pool.select_one();
    assert_eq!(result.unwrap(), 1);
}

#[test]
fn test_in_memory_select_one() {
    let pool = create_test_db().unwrap();
    assert_eq!(pool.select_one().unwrap(), 1);
}

#[test]
fn test_new_creates_missing_parent_dirs() {
    let dir = unique_dir("parents");
    let db_path = format!("{dir}/nested/deeper/fresh.sqlite");
    let db_manager = DbManager::new(&db_path).unwrap();
    assert_eq!(db_manager.pool.select_one().unwrap(), 1);
}

#[test]
fn test_new_reports_wal_journal_mode() {
    let dir = unique_dir("wal");
    let db_path = format!("{dir}/wal.sqlite");
    let db_manager = DbManager::new(&db_path).unwrap();
    assert_eq!(db_manager.pool.journal_mode().unwrap(), "wal");
}

#[test]
fn test_in_memory_journal_mode_is_not_wal() {
    // An in-memory database cannot persist a write-ahead log; enabling
    // WAL on it succeeds but leaves the mode at "memory".
    let pool = create_test_db().unwrap();
    assert_eq!(pool.journal_mode().unwrap(), "memory");
}

#[test]
fn test_new_twice_same_path() {
    let dir = unique_dir("twice");
    let db_path = format!("{dir}/shared.sqlite");
    let first = DbManager::new(&db_path).unwrap();
    let second = DbManager::new(&db_path).unwrap();
    assert_eq!(first.pool.select_one().unwrap(), 1);
    assert_eq!(second.pool.select_one().unwrap(), 1);
}

#[test]
fn test_new_io_error_when_parent_is_a_file() {
    let dir = unique_dir("io_err");
    // The first call creates `blocker` as an ordinary file; a directory
    // can then not be created in its place.
    let blocker = format!("{dir}/blocker");
    let _ = DbManager::new(&blocker).unwrap();
    let result = DbManager::new(&format!("{dir}/blocker/sub/db.sqlite"));
    assert!(matches!(result, Err(InitError::Io(_))));
}

#[test]
fn test_new_connect_error_when_target_is_a_directory() {
    let dir = unique_dir("connect_err");
    // The first call creates `{dir}/sub` as a directory; connecting to
    // that directory as if it were a database file must fail.
    let inner = format!("{dir}/sub/inner.sqlite");
    let _ = DbManager::new(&inner).unwrap();
    let result = DbManager::new(&format!("{dir}/sub"));
    assert!(matches!(result, Err(InitError::Connect(_))));
}

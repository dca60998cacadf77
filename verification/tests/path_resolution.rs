use ebb_db::db_manager::connect_url;
use ebb_db::paths::get_db_path;
use ebb_db::paths::get_default_codeclimbers_db_path;
use ebb_db::paths::get_default_ebb_db_path;
use ebb_db::paths::get_test_db_path;
use ebb_db::paths::parent_dir;

#[test]
fn test_codeclimbers_codeclimbers_path() {
    let db_path = get_default_codeclimbers_db_path().unwrap();
    assert!(db_path.ends_with(".codeclimbers/codeclimbers-desktop.sqlite"));
}

#[test]
fn test_ebb_db_path() {
    let db_path = get_default_ebb_db_path().unwrap();
    let default_db_path = get_db_path().unwrap();
    assert!(db_path.ends_with(".ebb/ebb-desktop.sqlite"));
    assert_eq!(db_path, default_db_path);
}

#[test]
fn test_test_db_path() {
    let db_path = get_test_db_path().unwrap();
    assert!(db_path.ends_with("ebb-desktop-test.sqlite"));
}

#[test]
fn test_ebb_path_is_idempotent() {
    assert_eq!(get_default_ebb_db_path().unwrap(), get_default_ebb_db_path().unwrap());
}

#[test]
fn test_test_path_differs_from_default() {
    assert_ne!(get_test_db_path().unwrap(), get_default_ebb_db_path().unwrap());
}

#[test]
fn test_connect_url_exact() {
    assert_eq!(connect_url("abc.sqlite"), "sqlite:abc.sqlite");
    assert_eq!(connect_url(":memory:"), "sqlite::memory:");
    assert_eq!(connect_url(""), "sqlite:");
}

#[test]
fn test_parent_dir_nested() {
    assert_eq!(parent_dir("a/b/c.sqlite"), Some("a/b".to_string()));
}

#[test]
fn test_parent_dir_rooted() {
    assert_eq!(parent_dir("/x.sqlite"), Some(String::new()));
}

#[test]
fn test_parent_dir_bare_file() {
    assert_eq!(parent_dir("c.sqlite"), None);
}

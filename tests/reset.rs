use icloud_sync::error::CloudError;
use icloud_sync::paths::{local_database_files, local_database_path};
use icloud_sync::reset::{delete_local_database, RemovalResult};

#[test]
fn local_database_has_three_files() {
    let files = local_database_files("/data");
    assert_eq!(
        files,
        vec![
            "/data/biblemarker.db".to_string(),
            "/data/biblemarker.db-wal".to_string(),
            "/data/biblemarker.db-shm".to_string(),
        ]
    );
    assert_eq!(local_database_path("/data"), "/data/biblemarker.db");
}

#[test]
fn clean_directory_resets_successfully() {
    let r = delete_local_database(&vec![
        RemovalResult::Missing,
        RemovalResult::Missing,
        RemovalResult::Missing,
    ]);
    assert_eq!(r.ok().as_deref(), Some("Local database deleted"));
}

#[test]
fn removed_files_confirm() {
    let r = delete_local_database(&vec![
        RemovalResult::Removed,
        RemovalResult::Removed,
        RemovalResult::Missing,
    ]);
    assert_eq!(r.ok().as_deref(), Some("Local database deleted"));
}

#[test]
fn first_failure_is_surfaced_verbatim() {
    let r = delete_local_database(&vec![
        RemovalResult::Removed,
        RemovalResult::Failed("file in use".to_string()),
        RemovalResult::Failed("permission denied".to_string()),
    ]);
    match r {
        Err(CloudError::Io(t)) => assert_eq!(t, "file in use"),
        _ => panic!("expected the removal failure"),
    }
}

use std::collections::HashMap;

use icloud_sync::container::Container;
use icloud_sync::dbfile::{check_database_page, PageVerdict};
use icloud_sync::error::CloudError;
use icloud_sync::migration::{
    migration_report, Migration, MigrationAction, MigrationEvent, MigrationOutcome,
};

const DATA_DIR: &str = "/tmp/localData";
const LOCAL: &str = "/tmp/localData/biblemarker.db";
const LEGACY: &str = "/tmp/fakeContainer/Documents/biblemarker.db";

/// A database of two 4096-byte pages: the schema page and one table.
fn valid_database() -> Vec<u8> {
    let mut b = vec![0u8; 8192];
    b[..16].copy_from_slice(b"SQLite format 3\0");
    b[16] = 0x10;
    b[17] = 0x00;
    b[18] = 1;
    b[19] = 1;
    b[20] = 0;
    b[21] = 64;
    b[22] = 32;
    b[23] = 32;
    b[24..28].copy_from_slice(&1u32.to_be_bytes());
    b[28..32].copy_from_slice(&2u32.to_be_bytes());
    b[44..48].copy_from_slice(&4u32.to_be_bytes());
    b[92..96].copy_from_slice(&1u32.to_be_bytes());
    b[96..100].copy_from_slice(&3045000u32.to_be_bytes());
    b[100] = 13;
    b[4096] = 13;
    b
}

enum Lookup {
    Found,
    TimedOut,
}

/// Runs a migration against in-memory files, every operation succeeding
/// unless `fail_removal` says otherwise.
fn drive(files: &mut HashMap<String, Vec<u8>>, lookup: Lookup, fail_removal: bool) -> MigrationOutcome {
    let mut m = Migration::new(DATA_DIR);
    let mut action = m.action();
    let mut steps = 0;
    loop {
        steps += 1;
        assert!(steps <= 7, "migration did not finish");
        let event = match action {
            MigrationAction::MeasureLocal => {
                MigrationEvent::LocalMeasured(files.get(m.local_path()).map(|b| b.len() as u64))
            }
            MigrationAction::ResolveContainer => MigrationEvent::ContainerResolved(match lookup {
                Lookup::Found => Ok(Container {
                    path: "/tmp/fakeContainer".to_string(),
                    via_fallback: false,
                }),
                Lookup::TimedOut => Err(CloudError::Timeout(10)),
            }),
            MigrationAction::ProbeLegacy => {
                MigrationEvent::LegacyProbed(files.contains_key(m.legacy_path()))
            }
            MigrationAction::CopyPrimary => {
                let bytes = files[m.legacy_path()].clone();
                files.insert(m.local_path().to_string(), bytes);
                MigrationEvent::Copied(Ok(()))
            }
            MigrationAction::InspectCopy => {
                MigrationEvent::Inspected(Ok(files[m.local_path()].clone()))
            }
            MigrationAction::RemoveCopy => {
                if fail_removal {
                    MigrationEvent::Removed(Err("permission denied".to_string()))
                } else {
                    files.remove(m.local_path());
                    MigrationEvent::Removed(Ok(()))
                }
            }
            MigrationAction::Finish => return m.outcome().unwrap(),
        };
        action = m.advance(event);
    }
}

fn with_legacy(bytes: Vec<u8>) -> HashMap<String, Vec<u8>> {
    let mut files = HashMap::new();
    files.insert(LEGACY.to_string(), bytes);
    files.insert("/tmp/fakeContainer/Documents/biblemarker.db-wal".to_string(), vec![7; 32]);
    files
}

#[test]
fn valid_legacy_database_is_migrated() {
    let mut files = with_legacy(valid_database());
    let outcome = drive(&mut files, Lookup::Found, false);
    assert!(matches!(outcome, MigrationOutcome::Migrated));
    assert_eq!(files[LOCAL], valid_database());
    assert_eq!(check_database_page(&files[LOCAL]), PageVerdict::Sound);
    assert_eq!(files[LEGACY], valid_database());
    assert!(!files.contains_key("/tmp/localData/biblemarker.db-wal"));
}

#[test]
fn truncated_header_fails_and_leaves_no_local_file() {
    let mut files = with_legacy(valid_database()[..50].to_vec());
    let outcome = drive(&mut files, Lookup::Found, false);
    match outcome {
        MigrationOutcome::FailedIo(d) => assert_eq!(d, "copied database has a malformed header"),
        _ => panic!("expected an I/O failure"),
    }
    assert!(!files.contains_key(LOCAL));
    assert_eq!(files[LEGACY].len(), 50);
}

#[test]
fn truncated_pages_fail_the_integrity_check() {
    let mut files = with_legacy(valid_database()[..4096].to_vec());
    let outcome = drive(&mut files, Lookup::Found, false);
    match outcome {
        MigrationOutcome::FailedCorrupt(d) => {
            assert_eq!(d, "copied database failed its integrity check")
        }
        _ => panic!("expected an integrity failure"),
    }
    assert!(!files.contains_key(LOCAL));
}

#[test]
fn second_migration_skips() {
    let mut files = with_legacy(valid_database());
    assert!(matches!(drive(&mut files, Lookup::Found, false), MigrationOutcome::Migrated));
    let before = files.clone();
    let outcome = drive(&mut files, Lookup::Found, false);
    assert!(matches!(outcome, MigrationOutcome::SkippedAlreadyLocal));
    assert_eq!(files, before);
}

#[test]
fn existing_local_database_is_never_overwritten() {
    let mut files = with_legacy(valid_database());
    files.insert(LOCAL.to_string(), vec![1, 2, 3]);
    let outcome = drive(&mut files, Lookup::Found, false);
    assert!(matches!(outcome, MigrationOutcome::SkippedAlreadyLocal));
    assert_eq!(files[LOCAL], vec![1, 2, 3]);
}

#[test]
fn empty_local_file_counts_as_absent() {
    let mut files = with_legacy(valid_database());
    files.insert(LOCAL.to_string(), Vec::new());
    let outcome = drive(&mut files, Lookup::Found, false);
    assert!(matches!(outcome, MigrationOutcome::Migrated));
    assert_eq!(files[LOCAL], valid_database());
}

#[test]
fn missing_legacy_database_skips() {
    let mut files = HashMap::new();
    let outcome = drive(&mut files, Lookup::Found, false);
    assert!(matches!(outcome, MigrationOutcome::SkippedNoSource));
    assert!(files.is_empty());
}

#[test]
fn unavailable_container_skips() {
    let mut files = with_legacy(valid_database());
    let outcome = drive(&mut files, Lookup::TimedOut, false);
    assert!(matches!(outcome, MigrationOutcome::SkippedNoSource));
    assert!(!files.contains_key(LOCAL));
}

#[test]
fn failed_cleanup_is_an_io_failure() {
    let mut files = with_legacy(b"not a database".to_vec());
    let outcome = drive(&mut files, Lookup::Found, true);
    match outcome {
        MigrationOutcome::FailedIo(d) => assert_eq!(d, "permission denied"),
        _ => panic!("expected an I/O failure"),
    }
}

#[test]
fn failed_copy_is_removed_and_reported() {
    let mut m = Migration::new(DATA_DIR);
    assert_eq!(m.local_path(), LOCAL);
    assert_eq!(m.advance(MigrationEvent::LocalMeasured(None)), MigrationAction::ResolveContainer);
    let c = Container { path: "/tmp/fakeContainer".to_string(), via_fallback: true };
    assert_eq!(m.advance(MigrationEvent::ContainerResolved(Ok(c))), MigrationAction::ProbeLegacy);
    assert_eq!(m.legacy_path(), LEGACY);
    assert_eq!(m.advance(MigrationEvent::LegacyProbed(true)), MigrationAction::CopyPrimary);
    assert!(m.outcome().is_none());
    assert_eq!(
        m.advance(MigrationEvent::Copied(Err("disk full".to_string()))),
        MigrationAction::RemoveCopy
    );
    assert_eq!(m.advance(MigrationEvent::Removed(Ok(()))), MigrationAction::Finish);
    match m.outcome().unwrap() {
        MigrationOutcome::FailedIo(d) => assert_eq!(d, "disk full"),
        _ => panic!("expected an I/O failure"),
    }
}

#[test]
fn unreadable_copy_is_removed_and_reported() {
    let mut m = Migration::new(DATA_DIR);
    m.advance(MigrationEvent::LocalMeasured(Some(0)));
    let c = Container { path: "/tmp/fakeContainer".to_string(), via_fallback: false };
    m.advance(MigrationEvent::ContainerResolved(Ok(c)));
    m.advance(MigrationEvent::LegacyProbed(true));
    assert_eq!(m.advance(MigrationEvent::Copied(Ok(()))), MigrationAction::InspectCopy);
    assert_eq!(
        m.advance(MigrationEvent::Inspected(Err("read error".to_string()))),
        MigrationAction::RemoveCopy
    );
    m.advance(MigrationEvent::Removed(Ok(())));
    assert!(matches!(m.outcome().unwrap(), MigrationOutcome::FailedIo(d) if d == "read error"));
}

#[test]
fn out_of_turn_event_is_ignored() {
    let mut m = Migration::new(DATA_DIR);
    assert_eq!(m.action(), MigrationAction::MeasureLocal);
    assert_eq!(m.advance(MigrationEvent::Copied(Ok(()))), MigrationAction::MeasureLocal);
    assert_eq!(m.advance(MigrationEvent::LegacyProbed(true)), MigrationAction::MeasureLocal);
    assert_eq!(m.advance(MigrationEvent::LocalMeasured(Some(10))), MigrationAction::Finish);
    assert_eq!(m.advance(MigrationEvent::Removed(Ok(()))), MigrationAction::Finish);
    assert!(matches!(m.outcome().unwrap(), MigrationOutcome::SkippedAlreadyLocal));
}

#[test]
fn reports_describe_each_outcome() {
    let r = migration_report(&MigrationOutcome::Migrated);
    assert!(r.migrated);
    assert_eq!(r.message, "Migrated database from iCloud to local storage");
    let r = migration_report(&MigrationOutcome::SkippedAlreadyLocal);
    assert!(!r.migrated);
    assert_eq!(r.message, "Local database already exists");
    let r = migration_report(&MigrationOutcome::SkippedNoSource);
    assert!(!r.migrated);
    assert_eq!(r.message, "No iCloud database to migrate");
    let r = migration_report(&MigrationOutcome::FailedCorrupt("bad".to_string()));
    assert!(!r.migrated);
    assert_eq!(r.message, "Migration failed: bad");
    let r = migration_report(&MigrationOutcome::FailedIo("gone".to_string()));
    assert_eq!(r.message, "Migration failed: gone");
}

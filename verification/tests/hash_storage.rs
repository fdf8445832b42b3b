use std::time::{Duration, SystemTime};

use v8_runner::change_detection::file_state::{epoch_nanos, mtime_nanos, FileState};
use v8_runner::change_detection::hash_storage::{
    HashStorage, StorageError, StoredFileState, StoredMeta, StoredTables,
};

fn state(mtime_ns: u64, hash: &str) -> StoredFileState {
    StoredFileState { mtime_ns, hash: hash.to_owned() }
}

fn tables(mtime: &[(&str, u64)], hash: &[(&str, &str)], watermark: Option<u64>, generation: Option<u64>) -> StoredTables {
    StoredTables {
        mtime: Some(mtime.iter().map(|(k, v)| ((*k).to_owned(), *v)).collect()),
        hash: Some(hash.iter().map(|(k, v)| ((*k).to_owned(), (*v).to_owned())).collect()),
        meta: Some(StoredMeta { watermark, generation }),
    }
}

#[test]
fn a_missing_storage_reads_as_empty() {
    let storage = HashStorage::new("/tmp/work/hash-storages/designer-main.redb".to_owned());
    let snapshot = storage.load_snapshot(None).expect("empty");
    assert!(snapshot.entries.is_empty());
    assert_eq!(snapshot.watermark, None);
    assert_eq!(snapshot.generation, 0);
    assert_eq!(storage.path(), "/tmp/work/hash-storages/designer-main.redb");
}

#[test]
fn storage_without_file_tables_keeps_its_metadata() {
    let storage = HashStorage::new("/s.redb".to_owned());
    let stored = StoredTables { mtime: None, hash: None, meta: Some(StoredMeta { watermark: Some(7), generation: None }) };
    let snapshot = storage.load_snapshot(Some(stored)).expect("snapshot");
    assert!(snapshot.entries.is_empty());
    assert_eq!(snapshot.watermark, Some(7));
    assert_eq!(snapshot.generation, 0);
}

#[test]
fn consistent_tables_join_into_entries() {
    let storage = HashStorage::new("/s.redb".to_owned());
    let stored = tables(&[("a.bsl", 10), ("b.xml", 20)], &[("b.xml", "hb"), ("a.bsl", "ha")], Some(99), Some(3));

    let snapshot = storage.load_snapshot(Some(stored)).expect("snapshot");

    assert_eq!(
        snapshot.entries,
        vec![("a.bsl".to_owned(), state(10, "ha")), ("b.xml".to_owned(), state(20, "hb"))]
    );
    assert_eq!(snapshot.watermark, Some(99));
    assert_eq!(snapshot.generation, 3);
    assert_eq!(storage.current_generation(Some(tables(&[], &[], None, Some(3)))).expect("generation"), 3);
}

#[test]
fn inconsistent_tables_are_recoverable_errors() {
    let storage = HashStorage::new("/s.redb".to_owned());

    let one_table = StoredTables { mtime: Some(vec![]), hash: None, meta: None };
    let err = storage.load_snapshot(Some(one_table)).expect_err("inconsistent");
    assert!(err.is_recoverable());
    assert_eq!(err.message(), "recoverable storage problem for '/s.redb': mtime/hash tables are inconsistent");

    let err = storage.load_snapshot(Some(tables(&[("a", 1)], &[], None, None))).expect_err("missing hash");
    assert_eq!(err, StorageError::Recoverable { path: "/s.redb".to_owned(), reason: "missing hash for key 'a'".to_owned() });

    let err = storage.load_snapshot(Some(tables(&[("a", 1)], &[("a", "h"), ("z", "h")], None, None))).expect_err("orphan");
    assert_eq!(err, StorageError::Recoverable { path: "/s.redb".to_owned(), reason: "missing mtime for key 'z'".to_owned() });
}

#[test]
fn commit_plan_removes_stale_keys_and_advances_the_generation() {
    let storage = HashStorage::new("/s.redb".to_owned());
    let snapshot = vec![("a.bsl".to_owned(), state(11, "ha2")), ("c.bsl".to_owned(), state(30, "hc"))];
    let existing = vec!["a.bsl".to_owned(), "b.xml".to_owned()];

    let plan = storage.plan_commit(Some(4), 4, &existing, &snapshot, 123).expect("plan");

    assert_eq!(plan.stale_keys, vec!["b.xml".to_owned()]);
    assert_eq!(plan.watermark, 123);
    assert_eq!(plan.generation, 5);
}

#[test]
fn commit_then_load_gives_back_the_snapshot() {
    let storage = HashStorage::new("/s.redb".to_owned());
    let snapshot = vec![("a.bsl".to_owned(), state(11, "ha2")), ("c.bsl".to_owned(), state(30, "hc"))];
    let plan = storage
        .plan_commit(None, 0, &vec!["a.bsl".to_owned(), "b.xml".to_owned()], &snapshot, 55)
        .expect("plan");

    // The tables after removing the stale keys and writing every entry, listed in key order.
    let after = tables(&[("a.bsl", 11), ("c.bsl", 30)], &[("a.bsl", "ha2"), ("c.bsl", "hc")], Some(plan.watermark), Some(plan.generation));
    let loaded = storage.load_snapshot(Some(after)).expect("loaded");

    assert_eq!(loaded.entries, snapshot);
    assert_eq!(loaded.watermark, Some(55));
    assert_eq!(loaded.generation, 1);
}

#[test]
fn a_moved_generation_refuses_the_commit() {
    let storage = HashStorage::new("/s.redb".to_owned());

    let err = storage.plan_commit(Some(7), 6, &vec![], &vec![], 1).expect_err("concurrent");

    assert_eq!(err, StorageError::ConcurrentStateModified { path: "/s.redb".to_owned(), expected: 6, actual: 7 });
    assert!(!err.is_recoverable());
    assert_eq!(
        err.message(),
        "storage state changed concurrently for '/s.redb': expected generation 6, found 7"
    );
    assert_eq!(StorageError::Hard { path: "/p".to_owned(), reason: "io".to_owned() }.message(), "hard storage problem for '/p': io");
}

#[test]
fn corrupt_storage_is_moved_aside_with_a_timestamp() {
    let storage = HashStorage::new("/work/hash-storages/designer-main.redb".to_owned());
    assert_eq!(storage.backup_path(1700000000), "/work/hash-storages/designer-main.corrupt.1700000000.redb");
    let bare = HashStorage::new("/work/storage".to_owned());
    assert_eq!(bare.backup_path(5), "/work/storage.corrupt.5.redb");
}

#[test]
fn recovery_moves_an_existing_file_aside_then_loads_the_new_snapshot_at_generation_one() {
    let storage = HashStorage::new("/work/hash-storages/designer-main.redb".to_owned());
    assert_eq!(storage.recovery_backup(false, 9), None);
    let backup = storage.recovery_backup(true, 9).expect("an existing file is moved aside");
    assert_eq!(backup, "/work/hash-storages/designer-main.corrupt.9.redb");
    assert_ne!(backup, storage.path());

    let failure = storage.rename_failure(&backup, "permission denied");
    assert_eq!(
        failure,
        StorageError::Hard {
            path: "/work/hash-storages/designer-main.redb".to_owned(),
            reason: "failed to rename corrupt db to '/work/hash-storages/designer-main.corrupt.9.redb': permission denied".to_owned(),
        }
    );
    assert!(!failure.is_recoverable());

    // With the old file moved aside the storage reads as empty at generation zero.
    assert_eq!(storage.current_generation(None), Ok(0));
    let snapshot = vec![("a.bsl".to_owned(), state(5, "h5"))];
    let plan = storage.plan_commit(None, 0, &vec![], &snapshot, 77).expect("fresh commit");
    assert!(plan.stale_keys.is_empty());
    assert_eq!(plan.generation, 1);

    let fresh = tables(&[("a.bsl", 5)], &[("a.bsl", "h5")], Some(plan.watermark), Some(plan.generation));
    let loaded = storage.load_snapshot(Some(fresh)).expect("loaded");
    assert_eq!(loaded.entries, snapshot);
    assert_eq!(loaded.watermark, Some(77));
    assert_eq!(loaded.generation, 1);
}

#[test]
fn file_state_records_its_fields() {
    let s = FileState::new("/a/b.bsl".to_owned(), 42, "ff".to_owned());
    assert_eq!((s.path.as_str(), s.mtime_ns, s.hash.as_str()), ("/a/b.bsl", 42, "ff"));
}

#[test]
fn mtime_is_nanoseconds_since_the_epoch() {
    let t = SystemTime::UNIX_EPOCH + Duration::new(3, 5);
    assert_eq!(mtime_nanos(t, "/f").expect("nanos"), 3_000_000_005);

    let before = SystemTime::UNIX_EPOCH - Duration::from_secs(1);
    let err = mtime_nanos(before, "/f").expect_err("pre-epoch");
    assert_eq!(err.reason, "pre-epoch mtime");
    assert_eq!(err.message(), "cannot convert mtime to nanoseconds for '/f': pre-epoch mtime");

    let err = epoch_nanos(Some(u128::from(u64::MAX) + 1), "/g").expect_err("overflow");
    assert_eq!(err.reason, "mtime nanoseconds overflow u64");
    assert_eq!(epoch_nanos(Some(9), "/g").expect("fits"), 9);
}

#[test]
fn commit_tables_write_the_snapshot_and_keep_only_orphan_hashes() {
    let storage = HashStorage::new("/s.redb".to_owned());
    let mtimes = vec![("a.bsl".to_owned(), 1u64), ("b.xml".to_owned(), 2u64)];
    let hashes = vec![("a.bsl".to_owned(), "ha".to_owned()), ("b.xml".to_owned(), "hb".to_owned()), ("z".to_owned(), "hz".to_owned())];
    let snapshot = vec![("a.bsl".to_owned(), state(11, "ha2")), ("c.bsl".to_owned(), state(30, "hc"))];

    let t = storage.commit_tables(Some(4), 4, &mtimes, &hashes, &snapshot, 9).expect("commit");
    assert_eq!(t.mtime, Some(vec![("a.bsl".to_owned(), 11), ("c.bsl".to_owned(), 30)]));
    assert_eq!(
        t.hash,
        Some(vec![("z".to_owned(), "hz".to_owned()), ("a.bsl".to_owned(), "ha2".to_owned()), ("c.bsl".to_owned(), "hc".to_owned())])
    );
    assert_eq!(t.meta, Some(StoredMeta { watermark: Some(9), generation: Some(5) }));
    // The orphan hash row of "z" makes the storage recoverably broken on the next read.
    assert!(storage.load_snapshot(Some(t)).expect_err("orphan").is_recoverable());

    let clean = storage.commit_tables(None, 0, &mtimes, &hashes[..2].to_vec(), &snapshot, 9).expect("commit");
    let loaded = storage.load_snapshot(Some(clean)).expect("loaded");
    assert_eq!(loaded.entries, snapshot);
    assert_eq!((loaded.watermark, loaded.generation), (Some(9), 1));

    let refused = storage.commit_tables(Some(2), 1, &mtimes, &hashes, &snapshot, 9).expect_err("moved");
    assert_eq!(refused, StorageError::ConcurrentStateModified { path: "/s.redb".to_owned(), expected: 1, actual: 2 });
}

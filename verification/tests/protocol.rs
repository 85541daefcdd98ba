use lockfile::{FsOutcome, FsRequest, LockError, Lockfile, MemDisk};

fn fresh(target: &str) -> Lockfile {
    Lockfile::new(target).unwrap()
}

fn create(path: &str) -> FsRequest {
    FsRequest::CreateExclusive { path: path.to_string() }
}

fn append(path: &str, bytes: &[u8]) -> FsRequest {
    FsRequest::Append { path: path.to_string(), bytes: bytes.to_vec() }
}

fn rename(from: &str, to: &str) -> FsRequest {
    FsRequest::Rename { from: from.to_string(), to: to.to_string() }
}

fn stale(path: &str) -> LockError {
    LockError::StaleLock { path: path.to_string() }
}

fn contention(path: &str) -> LockError {
    LockError::Contention { path: path.to_string() }
}

/// A disk on which `path` holds `bytes`.
fn disk_with(path: &str, bytes: &[u8]) -> MemDisk {
    let mut disk = MemDisk::new();
    assert_eq!(disk.perform(&create(path)), FsOutcome::Done);
    assert_eq!(disk.perform(&append(path, bytes)), FsOutcome::Done);
    disk
}

/// A lock on `target` that is held without any disk: the create was answered
/// with `Done`.
fn held(target: &str) -> Lockfile {
    let mut lock = fresh(target);
    let request = lock.hold_for_update().unwrap();
    assert_eq!(lock.settle(&request, FsOutcome::Done), Ok(()));
    assert!(lock.is_held());
    lock
}

// The requests.

#[test]
fn acquire_asks_for_exclusive_create_of_the_staging_file() {
    let lock = fresh("dir/data.txt");
    assert_eq!(lock.hold_for_update(), Some(create("dir/data.lock")));
    assert!(!lock.is_held());
}

#[test]
fn acquire_asks_nothing_while_held() {
    let lock = held("data.txt");
    assert_eq!(lock.hold_for_update(), None);
    assert!(lock.is_held());
}

#[test]
fn write_asks_to_append_the_bytes_to_the_staging_file() {
    let lock = held("data.txt");
    assert_eq!(lock.write("hello"), Ok(append("data.lock", b"hello")));
    assert!(lock.is_held());
}

#[test]
fn write_of_nothing_appends_nothing() {
    let lock = held("data.txt");
    assert_eq!(lock.write(""), Ok(append("data.lock", b"")));
}

#[test]
fn write_sends_text_as_utf8() {
    let lock = held("data.txt");
    assert_eq!(
        lock.write("h\u{e9}\u{20ac}"),
        Ok(append("data.lock", &[0x68, 0xc3, 0xa9, 0xe2, 0x82, 0xac]))
    );
}

#[test]
fn write_without_lock_is_stale_and_asks_nothing() {
    let lock = fresh("data.txt");
    assert_eq!(lock.write("hello"), Err(stale("data.lock")));
    assert!(!lock.is_held());
}

#[test]
fn commit_asks_to_rename_staging_onto_target_and_releases() {
    let mut lock = held("dir/data.txt");
    assert_eq!(lock.commit(), Ok(rename("dir/data.lock", "dir/data.txt")));
    assert!(!lock.is_held());
    assert_eq!(lock.file_path(), "dir/data.txt");
    assert_eq!(lock.lock_path(), "dir/data.lock");
}

#[test]
fn commit_without_lock_is_stale_and_asks_nothing() {
    let mut lock = fresh("data.txt");
    assert_eq!(lock.commit(), Err(stale("data.lock")));
    assert!(!lock.is_held());
}

#[test]
fn second_commit_is_stale() {
    let mut lock = held("data.txt");
    let request = lock.commit().unwrap();
    assert_eq!(lock.settle(&request, FsOutcome::Done), Ok(()));
    assert_eq!(lock.commit(), Err(stale("data.lock")));
    assert_eq!(lock.write("late"), Err(stale("data.lock")));
}

// The answers.

#[test]
fn create_that_was_done_makes_the_lock_held() {
    let mut lock = fresh("data.txt");
    assert_eq!(lock.settle(&create("data.lock"), FsOutcome::Done), Ok(()));
    assert!(lock.is_held());
}

#[test]
fn create_on_a_taken_path_is_contention() {
    let mut lock = fresh("data.txt");
    assert_eq!(
        lock.settle(&create("data.lock"), FsOutcome::AlreadyExists),
        Err(contention("data.lock"))
    );
    assert!(!lock.is_held());
}

#[test]
fn create_that_failed_otherwise_is_an_io_fault() {
    let mut lock = fresh("data.txt");
    assert_eq!(lock.settle(&create("data.lock"), FsOutcome::Failed), Err(LockError::IoFault));
    assert!(!lock.is_held());
}

#[test]
fn contention_and_io_fault_are_told_apart() {
    let mut lock = fresh("data.txt");
    let taken = lock.settle(&create("data.lock"), FsOutcome::AlreadyExists).unwrap_err();
    let broken = lock.settle(&create("data.lock"), FsOutcome::Failed).unwrap_err();
    assert_ne!(taken, broken);
    assert!(matches!(taken, LockError::Contention { .. }));
    assert!(matches!(broken, LockError::IoFault));
}

#[test]
fn append_that_was_done_is_ok_and_keeps_the_lock() {
    let mut lock = held("data.txt");
    assert_eq!(lock.settle(&append("data.lock", b"x"), FsOutcome::Done), Ok(()));
    assert!(lock.is_held());
}

#[test]
fn append_that_failed_is_an_io_fault_and_keeps_the_lock() {
    let mut lock = held("data.txt");
    assert_eq!(lock.settle(&append("data.lock", b"x"), FsOutcome::Failed), Err(LockError::IoFault));
    assert!(lock.is_held());
    assert_eq!(lock.write("again"), Ok(append("data.lock", b"again")));
}

#[test]
fn commit_is_still_open_after_a_failed_write() {
    let mut disk = MemDisk::new();
    let mut lock = fresh("data.txt");
    assert_eq!(lock.hold_for_update_on(&mut disk), Ok(()));
    assert_eq!(lock.write_on(&mut disk, "first"), Ok(()));
    let request = lock.write("second").unwrap();
    assert_eq!(lock.settle(&request, FsOutcome::Failed), Err(LockError::IoFault));
    assert!(lock.is_held());
    assert_eq!(lock.commit_on(&mut disk), Ok(()));
    assert_eq!(disk.read("data.txt"), Some(&b"first".to_vec()));
}

#[test]
fn only_a_create_meets_contention() {
    let mut lock = held("data.txt");
    assert_eq!(
        lock.settle(&append("data.lock", b"x"), FsOutcome::AlreadyExists),
        Err(LockError::IoFault)
    );
    assert_eq!(
        lock.settle(&rename("data.lock", "data.txt"), FsOutcome::AlreadyExists),
        Err(LockError::IoFault)
    );
}

#[test]
fn only_a_create_makes_the_lock_held() {
    let mut lock = fresh("data.txt");
    assert_eq!(lock.settle(&append("data.lock", b"x"), FsOutcome::Done), Ok(()));
    assert!(!lock.is_held());
    assert_eq!(lock.settle(&rename("data.lock", "data.txt"), FsOutcome::Done), Ok(()));
    assert!(!lock.is_held());
}

#[test]
fn rename_that_failed_is_an_io_fault_and_the_lock_stays_released() {
    let mut lock = held("data.txt");
    let request = lock.commit().unwrap();
    assert_eq!(lock.settle(&request, FsOutcome::Failed), Err(LockError::IoFault));
    assert!(!lock.is_held());
    assert_eq!(lock.write("late"), Err(stale("data.lock")));
    assert_eq!(lock.commit(), Err(stale("data.lock")));
}

// A lock driven against a disk.

#[test]
fn acquire_twice_is_idempotent() {
    let mut disk = MemDisk::new();
    let mut lock = fresh("data.txt");
    assert_eq!(lock.hold_for_update_on(&mut disk), Ok(()));
    assert!(lock.is_held());
    assert_eq!(lock.write_on(&mut disk, "kept"), Ok(()));
    assert_eq!(lock.hold_for_update_on(&mut disk), Ok(()));
    assert!(lock.is_held());
    assert_eq!(disk.read("data.lock"), Some(&b"kept".to_vec()));
    assert!(!disk.has("data.txt"));
}

#[test]
fn acquire_fails_with_contention_when_staging_file_exists() {
    let mut disk = disk_with("data.lock", b"left behind");
    let mut lock = fresh("data.txt");
    assert_eq!(lock.hold_for_update_on(&mut disk), Err(contention("data.lock")));
    assert!(!lock.is_held());
    assert_eq!(disk.read("data.lock"), Some(&b"left behind".to_vec()));
    assert!(!disk.has("data.txt"));
}

#[test]
fn write_before_acquire_is_stale_and_target_untouched() {
    let mut disk = disk_with("data.txt", b"old");
    let mut lock = fresh("data.txt");
    assert_eq!(lock.write_on(&mut disk, "hello"), Err(stale("data.lock")));
    assert_eq!(disk.read("data.txt"), Some(&b"old".to_vec()));
    assert!(!disk.has("data.lock"));
}

#[test]
fn commit_before_acquire_is_stale_and_target_untouched() {
    let mut disk = disk_with("data.txt", b"old");
    let mut lock = fresh("data.txt");
    assert_eq!(lock.commit_on(&mut disk), Err(stale("data.lock")));
    assert_eq!(disk.read("data.txt"), Some(&b"old".to_vec()));
    assert!(!disk.has("data.lock"));
}

#[test]
fn commit_before_acquire_does_not_take_a_stale_staging_file() {
    let mut disk = disk_with("data.txt", b"old");
    disk.perform(&create("data.lock"));
    disk.perform(&append("data.lock", b"somebody else's"));
    let mut lock = fresh("data.txt");
    assert_eq!(lock.commit_on(&mut disk), Err(stale("data.lock")));
    assert_eq!(disk.read("data.txt"), Some(&b"old".to_vec()));
    assert_eq!(disk.read("data.lock"), Some(&b"somebody else's".to_vec()));
}

#[test]
fn write_after_failed_acquire_is_stale() {
    let mut disk = disk_with("data.lock", b"");
    let mut lock = fresh("data.txt");
    assert_eq!(lock.hold_for_update_on(&mut disk), Err(contention("data.lock")));
    assert_eq!(lock.write_on(&mut disk, "hello"), Err(stale("data.lock")));
    assert_eq!(disk.read("data.lock"), Some(&Vec::new()));
}

#[test]
fn end_to_end_hello_world() {
    let mut disk = MemDisk::new();
    let mut lock = fresh("data.txt");
    assert_eq!(lock.hold_for_update_on(&mut disk), Ok(()));
    assert!(disk.has("data.lock"));
    assert_eq!(lock.write_on(&mut disk, "hello"), Ok(()));
    assert_eq!(lock.write_on(&mut disk, " world"), Ok(()));
    assert_eq!(lock.commit_on(&mut disk), Ok(()));
    assert_eq!(disk.read("data.txt"), Some(&b"hello world".to_vec()));
    assert!(!disk.has("data.lock"));
    assert!(!lock.is_held());
}

#[test]
fn end_to_end_by_hand() {
    let mut disk = MemDisk::new();
    let mut lock = fresh("data.txt");

    let request = lock.hold_for_update().unwrap();
    let outcome = disk.perform(&request);
    assert_eq!(lock.settle(&request, outcome), Ok(()));

    for piece in ["hello", " world"] {
        let request = lock.write(piece).unwrap();
        let outcome = disk.perform(&request);
        assert_eq!(lock.settle(&request, outcome), Ok(()));
    }

    let request = lock.commit().unwrap();
    let outcome = disk.perform(&request);
    assert_eq!(lock.settle(&request, outcome), Ok(()));

    assert_eq!(disk.read("data.txt"), Some(&b"hello world".to_vec()));
    assert!(!disk.has("data.lock"));
}

#[test]
fn target_is_replaced_only_by_the_commit() {
    let mut disk = disk_with("data.txt", b"old");
    let mut lock = fresh("data.txt");
    assert_eq!(lock.hold_for_update_on(&mut disk), Ok(()));
    assert_eq!(disk.read("data.txt"), Some(&b"old".to_vec()));
    assert_eq!(lock.write_on(&mut disk, "new"), Ok(()));
    assert_eq!(disk.read("data.txt"), Some(&b"old".to_vec()));
    assert_eq!(disk.read("data.lock"), Some(&b"new".to_vec()));
    assert_eq!(lock.commit_on(&mut disk), Ok(()));
    assert_eq!(disk.read("data.txt"), Some(&b"new".to_vec()));
    assert!(!disk.has("data.lock"));
}

#[test]
fn second_instance_is_refused_until_the_first_commits() {
    let mut disk = MemDisk::new();
    let mut first = fresh("data.txt");
    let mut second = fresh("data.txt");
    let mut third = fresh("data.txt");

    assert_eq!(first.hold_for_update_on(&mut disk), Ok(()));
    assert_eq!(second.hold_for_update_on(&mut disk), Err(contention("data.lock")));
    assert!(!second.is_held());
    assert_eq!(first.write_on(&mut disk, "from the first"), Ok(()));
    assert_eq!(second.hold_for_update_on(&mut disk), Err(contention("data.lock")));
    assert_eq!(second.write_on(&mut disk, "from the second"), Err(stale("data.lock")));
    assert_eq!(first.commit_on(&mut disk), Ok(()));

    assert_eq!(third.hold_for_update_on(&mut disk), Ok(()));
    assert!(third.is_held());
    assert_eq!(disk.read("data.txt"), Some(&b"from the first".to_vec()));
    assert_eq!(disk.read("data.lock"), Some(&Vec::new()));
}

#[test]
fn round_trip_keeps_bytes_and_order() {
    let pieces = ["", "line 1\n", "\u{3b1}\u{3b2}\u{3b3}", "\0\t", "tail"];
    let mut disk = MemDisk::new();
    let mut lock = fresh("out/table.csv");
    assert_eq!(lock.hold_for_update_on(&mut disk), Ok(()));
    let mut expected: Vec<u8> = Vec::new();
    for piece in pieces {
        assert_eq!(lock.write_on(&mut disk, piece), Ok(()));
        expected.extend_from_slice(piece.as_bytes());
    }
    assert_eq!(lock.commit_on(&mut disk), Ok(()));
    assert_eq!(disk.read("out/table.csv"), Some(&expected));
    assert!(!disk.has("out/table.lock"));
}

#[test]
fn round_trip_without_a_write_leaves_an_empty_target() {
    let mut disk = disk_with("data.txt", b"old");
    let mut lock = fresh("data.txt");
    assert_eq!(lock.hold_for_update_on(&mut disk), Ok(()));
    assert_eq!(lock.commit_on(&mut disk), Ok(()));
    assert_eq!(disk.read("data.txt"), Some(&Vec::new()));
}

#[test]
fn abandoned_lock_leaves_the_staging_file_in_the_way() {
    let mut disk = MemDisk::new();
    {
        let mut lock = fresh("data.txt");
        assert_eq!(lock.hold_for_update_on(&mut disk), Ok(()));
        assert_eq!(lock.write_on(&mut disk, "half"), Ok(()));
    }
    assert_eq!(disk.read("data.lock"), Some(&b"half".to_vec()));
    let mut next = fresh("data.txt");
    assert_eq!(next.hold_for_update_on(&mut disk), Err(contention("data.lock")));
    assert!(!disk.has("data.txt"));
}

#[test]
fn orphaned_staging_file_after_failed_rename_blocks_the_next_acquire() {
    let mut disk = MemDisk::new();
    let mut lock = fresh("data.txt");
    assert_eq!(lock.hold_for_update_on(&mut disk), Ok(()));
    assert_eq!(lock.write_on(&mut disk, "staged"), Ok(()));
    let request = lock.commit().unwrap();
    assert_eq!(lock.settle(&request, FsOutcome::Failed), Err(LockError::IoFault));
    assert!(!lock.is_held());
    assert_eq!(disk.read("data.lock"), Some(&b"staged".to_vec()));
    assert_eq!(lock.hold_for_update_on(&mut disk), Err(contention("data.lock")));
}

#[test]
fn lock_can_be_taken_again_after_its_commit() {
    let mut disk = MemDisk::new();
    let mut lock = fresh("data.txt");
    assert_eq!(lock.hold_for_update_on(&mut disk), Ok(()));
    assert_eq!(lock.write_on(&mut disk, "one"), Ok(()));
    assert_eq!(lock.commit_on(&mut disk), Ok(()));
    assert_eq!(lock.hold_for_update_on(&mut disk), Ok(()));
    assert_eq!(lock.write_on(&mut disk, "two"), Ok(()));
    assert_eq!(disk.read("data.txt"), Some(&b"one".to_vec()));
    assert_eq!(lock.commit_on(&mut disk), Ok(()));
    assert_eq!(disk.read("data.txt"), Some(&b"two".to_vec()));
}

#[test]
fn target_that_is_its_own_staging_file_stays_in_the_way() {
    let mut disk = MemDisk::new();
    let mut first = fresh("data.lock");
    assert_eq!(first.lock_path(), "data.lock");
    assert_eq!(first.hold_for_update_on(&mut disk), Ok(()));
    assert_eq!(first.write_on(&mut disk, "x"), Ok(()));
    assert_eq!(first.commit_on(&mut disk), Ok(()));
    assert_eq!(disk.read("data.lock"), Some(&b"x".to_vec()));
    let mut next = fresh("data.lock");
    assert_eq!(next.hold_for_update_on(&mut disk), Err(contention("data.lock")));
}

#[test]
fn locks_on_different_targets_do_not_meet() {
    let mut disk = MemDisk::new();
    let mut a = fresh("a.txt");
    let mut b = fresh("b.txt");
    assert_eq!(a.hold_for_update_on(&mut disk), Ok(()));
    assert_eq!(b.hold_for_update_on(&mut disk), Ok(()));
    assert_eq!(a.write_on(&mut disk, "A"), Ok(()));
    assert_eq!(b.write_on(&mut disk, "B"), Ok(()));
    assert_eq!(b.commit_on(&mut disk), Ok(()));
    assert_eq!(a.commit_on(&mut disk), Ok(()));
    assert_eq!(disk.read("a.txt"), Some(&b"A".to_vec()));
    assert_eq!(disk.read("b.txt"), Some(&b"B".to_vec()));
}

#[test]
fn write_fails_when_the_staging_file_was_taken_away() {
    let mut disk = MemDisk::new();
    let mut lock = fresh("data.txt");
    assert_eq!(lock.hold_for_update_on(&mut disk), Ok(()));
    assert_eq!(disk.perform(&rename("data.lock", "elsewhere")), FsOutcome::Done);
    assert_eq!(lock.write_on(&mut disk, "lost"), Err(LockError::IoFault));
    assert!(lock.is_held());
    assert_eq!(lock.commit_on(&mut disk), Err(LockError::IoFault));
    assert!(!lock.is_held());
    assert!(!disk.has("data.txt"));
}

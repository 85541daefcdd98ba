//! What holds of every lock on every disk.

use vstd::prelude::*;
use crate::disk::Disk;
use crate::error::LockErrorView;
use crate::lockfile::LockfileView;
use crate::request::{FsOutcome, FsRequestView};
use crate::session::After;

verus! {

/// Whether two locks are bound to the same target and staging paths.
pub open spec fn same_paths(a: LockfileView, b: LockfileView) -> bool {
    a.target == b.target && a.stage == b.stage
}

/// A lock is held after an acquire exactly if the acquire succeeded, and then a
/// second acquire succeeds too, asks nothing of the filesystem and changes
/// neither the lock nor the disk.
pub proof fn second_acquire_changes_nothing(lock: LockfileView, disk: Disk)
    ensures
        lock.hold_for_update_on(disk).lock.held <==> lock.hold_for_update_on(disk).result is Ok,
        lock.hold_for_update_on(disk).result is Ok ==> {
            let first = lock.hold_for_update_on(disk);
            &&& first.lock.hold_for_update() is None
            &&& first.lock.hold_for_update_on(first.disk) == first
        },
{
}

/// Whatever the filesystem answers to an acquire, a lock that the answer left
/// held asks nothing more when it is acquired again.
pub proof fn held_lock_asks_nothing(lock: LockfileView, outcome: FsOutcome)
    ensures
        match lock.hold_for_update() {
            Some(request) => {
                let (next, result) = lock.settle(request, outcome);
                &&& result is Ok <==> outcome is Done
                &&& next.held <==> result is Ok
                &&& next.held ==> next.hold_for_update() is None
            },
            None => lock.held,
        },
{
}

/// Acquiring while the staging file exists fails with contention, whatever the
/// file holds and whoever made it, and changes neither the lock nor the disk.
pub proof fn taken_staging_path_is_contention(lock: LockfileView, disk: Disk)
    requires
        !lock.held,
        disk.has(lock.stage),
    ensures
        lock.hold_for_update_on(disk) == (After {
            lock,
            disk,
            result: Err(LockErrorView::Contention { path: lock.stage }),
        }),
{
}

/// An operation fails exactly if the filesystem did not carry its request out.
/// The failure is contention for one answer only, that the path of an exclusive
/// create was taken, and that answer is never an I/O fault; every other failure
/// is an I/O fault.
pub proof fn contention_is_told_apart(
    lock: LockfileView,
    request: FsRequestView,
    outcome: FsOutcome,
)
    ensures
        lock.settle(request, outcome).1 is Err <==> !(outcome is Done),
        lock.settle(request, outcome).1 == Err::<(), LockErrorView>(
            LockErrorView::Contention { path: lock.stage },
        ) <==> request is CreateExclusive && outcome is AlreadyExists,
        lock.settle(request, outcome).1 == Err::<(), LockErrorView>(LockErrorView::IoFault)
            <==> !(outcome is Done) && !(request is CreateExclusive && outcome is AlreadyExists),
{
}

/// Writing without the lock fails as stale, with the staging path in the error,
/// asks nothing of the filesystem and so leaves every file as it was.
pub proof fn write_without_lock_is_stale(lock: LockfileView, disk: Disk, bytes: Seq<u8>)
    requires
        !lock.held,
    ensures
        lock.write(bytes) is Err,
        lock.write_on(disk, bytes) == (After {
            lock,
            disk,
            result: Err(LockErrorView::StaleLock { path: lock.stage }),
        }),
{
}

/// Committing without the lock fails as stale, with the staging path in the
/// error, asks for no rename and so leaves every file as it was.
pub proof fn commit_without_lock_is_stale(lock: LockfileView, disk: Disk)
    requires
        !lock.held,
    ensures
        lock.commit().1 is Err,
        lock.commit_on(disk) == (After {
            lock,
            disk,
            result: Err(LockErrorView::StaleLock { path: lock.stage }),
        }),
{
}

/// No operation changes the paths of a lock, a write never changes whether it is
/// held, and after a commit it is not held, however the commit ended.
pub proof fn paths_stay_and_commit_releases(lock: LockfileView, disk: Disk, bytes: Seq<u8>)
    ensures
        same_paths(lock.hold_for_update_on(disk).lock, lock),
        same_paths(lock.write_on(disk, bytes).lock, lock),
        same_paths(lock.commit_on(disk).lock, lock),
        lock.write_on(disk, bytes).lock.held == lock.held,
        !lock.commit_on(disk).lock.held,
{
}

/// While one instance holds the lock and its staging file is there, an acquire
/// by another instance on the same target fails with contention and changes
/// nothing. Once the holder has committed, an acquire by a fresh instance
/// succeeds.
///
/// The target must not be its own staging path: such a target is still in the
/// way of the next acquire after the commit.
pub proof fn lock_excludes_until_commit(
    holder: LockfileView,
    second: LockfileView,
    third: LockfileView,
    disk: Disk,
)
    requires
        holder.held,
        disk.has(holder.stage),
        holder.stage != holder.target,
        same_paths(second, holder),
        same_paths(third, holder),
        !second.held,
        !third.held,
    ensures
        second.hold_for_update_on(disk) == (After {
            lock: second,
            disk,
            result: Err(LockErrorView::Contention { path: holder.stage }),
        }),
        holder.commit_on(disk).result is Ok,
        third.hold_for_update_on(holder.commit_on(disk).disk).result is Ok,
        third.hold_for_update_on(holder.commit_on(disk).disk).lock.held,
{
}

/// A commit whose rename the filesystem refused leaves the instance without the
/// lock and the staging file where it was. Until somebody takes that file away,
/// no instance on the same target can acquire, this one included.
pub proof fn refused_rename_orphans_staging_file(
    lock: LockfileView,
    other: LockfileView,
    disk: Disk,
    outcome: FsOutcome,
)
    requires
        lock.held,
        disk.has(lock.stage),
        !(outcome is Done),
        same_paths(other, lock),
        !other.held,
    ensures
        ({
            let (released, step) = lock.commit();
            let (left, result) = released.settle(step->Ok_0, outcome);
            &&& step == Ok::<FsRequestView, LockErrorView>(
                FsRequestView::Rename { from: lock.stage, to: lock.target },
            )
            &&& result == Err::<(), LockErrorView>(LockErrorView::IoFault)
            &&& !left.held
            &&& left.hold_for_update_on(disk) == (After {
                lock: left,
                disk,
                result: Err(LockErrorView::Contention { path: lock.stage }),
            })
            &&& other.hold_for_update_on(disk) == (After {
                lock: other,
                disk,
                result: Err(LockErrorView::Contention { path: lock.stage }),
            })
        }),
{
}

/// Writes by a lock that is held, on a disk where its staging file is, all
/// succeed, and add their bytes to the staging file in the order of the calls.
/// Nothing else on the disk changes.
pub proof fn writes_append_in_order(lock: LockfileView, disk: Disk, chunks: Seq<Seq<u8>>)
    requires
        lock.held,
        disk.has(lock.stage),
    ensures
        lock.write_each_on(disk, chunks) == (After {
            lock,
            disk: Disk {
                files: disk.files.insert(lock.stage, disk.files[lock.stage] + chunks.flatten()),
            },
            result: Ok(()),
        }),
    decreases chunks.len(),
{
    chunks.lemma_flatten_and_flatten_alt_are_equivalent();
    if chunks.len() == 0 {
        assert(disk.files.insert(lock.stage, disk.files[lock.stage]) =~= disk.files);
    } else {
        let front = chunks.drop_last();
        writes_append_in_order(lock, disk, front);
        front.lemma_flatten_and_flatten_alt_are_equivalent();
        let before = lock.write_each_on(disk, front);
        let staged = disk.files[lock.stage] + front.flatten();
        assert(staged + chunks.last() =~= disk.files[lock.stage] + chunks.flatten());
        assert(before.disk.files.insert(lock.stage, staged + chunks.last())
            =~= disk.files.insert(lock.stage, disk.files[lock.stage] + chunks.flatten()));
    }
}

/// Round trip. On a disk whose staging path is free, a lock that is not held
/// acquires, writes `chunks` and commits without a failure. The target then holds
/// the bytes of all the writes, in the order of the calls, and nothing else.
/// Until the commit the target is as it was before; after it the staging file is
/// gone; no other file changes at all.
pub proof fn commit_publishes_what_was_written(
    lock: LockfileView,
    disk: Disk,
    chunks: Seq<Seq<u8>>,
)
    requires
        !lock.held,
        !disk.has(lock.stage),
    ensures
        ({
            let acquired = lock.hold_for_update_on(disk);
            let written = acquired.lock.write_each_on(acquired.disk, chunks);
            let committed = written.lock.commit_on(written.disk);
            &&& acquired.result is Ok
            &&& written.result is Ok
            &&& committed.result is Ok
            &&& !committed.lock.held
            &&& committed.disk.has(lock.target)
            &&& committed.disk.contents(lock.target) == chunks.flatten()
            &&& lock.stage != lock.target ==> {
                &&& !committed.disk.has(lock.stage)
                &&& written.disk.has(lock.target) == disk.has(lock.target)
                &&& written.disk.contents(lock.target) == disk.contents(lock.target)
            }
            &&& forall|path: Seq<char>|
                path != lock.target && path != lock.stage ==> {
                    &&& #[trigger] committed.disk.has(path) == disk.has(path)
                    &&& committed.disk.contents(path) == disk.contents(path)
                }
        }),
{
    let acquired = lock.hold_for_update_on(disk);
    writes_append_in_order(acquired.lock, acquired.disk, chunks);
}

} // verus!

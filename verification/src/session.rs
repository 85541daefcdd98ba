//! A lock driven against a disk: each operation carried through from the call to
//! its result, the request performed in between.

use vstd::prelude::*;
use vstd::string::*;
use crate::disk::{Disk, MemDisk};
use crate::error::{LockError, LockErrorView};
use crate::lockfile::{result_view, Lockfile, LockfileView};
use crate::request::{FsRequest, FsRequestView};

verus! {

/// Where one operation leaves the lock and the disk, and how it ended.
pub struct After {
    pub lock: LockfileView,
    pub disk: Disk,
    pub result: Result<(), LockErrorView>,
}

impl LockfileView {
    /// `request` performed on `disk`, and the answer settled with this lock.
    pub open spec fn carry_out(self, disk: Disk, request: FsRequestView) -> After {
        let (disk_after, outcome) = disk.perform(request);
        let (lock_after, result) = self.settle(request, outcome);
        After { lock: lock_after, disk: disk_after, result }
    }

    /// Acquiring the lock on `disk`.
    pub open spec fn hold_for_update_on(self, disk: Disk) -> After {
        match self.hold_for_update() {
            Some(request) => self.carry_out(disk, request),
            None => After { lock: self, disk, result: Ok(()) },
        }
    }

    /// Writing `bytes` to the staging file on `disk`.
    pub open spec fn write_on(self, disk: Disk, bytes: Seq<u8>) -> After {
        match self.write(bytes) {
            Ok(request) => self.carry_out(disk, request),
            Err(e) => After { lock: self, disk, result: Err(e) },
        }
    }

    /// Writing each of `chunks` in turn, up to the first write that fails.
    pub open spec fn write_each_on(self, disk: Disk, chunks: Seq<Seq<u8>>) -> After
        decreases chunks.len(),
    {
        if chunks.len() == 0 {
            After { lock: self, disk, result: Ok(()) }
        } else {
            let before = self.write_each_on(disk, chunks.drop_last());
            if before.result is Ok {
                before.lock.write_on(before.disk, chunks.last())
            } else {
                before
            }
        }
    }

    /// Committing on `disk`: the staging file becomes the target.
    pub open spec fn commit_on(self, disk: Disk) -> After {
        let (released, step) = self.commit();
        match step {
            Ok(request) => released.carry_out(disk, request),
            Err(e) => After { lock: released, disk, result: Err(e) },
        }
    }
}

impl Lockfile {
    /// Has `disk` perform `request` and settles its answer.
    fn carry_out(&mut self, disk: &mut MemDisk, request: &FsRequest) -> (r: Result<(), LockError>)
        ensures
            (After { lock: final(self)@, disk: final(disk)@, result: result_view(r) }) == old(
                self,
            )@.carry_out(old(disk)@, request@),
    {
        let outcome = disk.perform(request);
        self.settle(request, outcome)
    }

    /// Acquires the lock on `disk`.
    pub fn hold_for_update_on(&mut self, disk: &mut MemDisk) -> (r: Result<(), LockError>)
        ensures
            (After { lock: final(self)@, disk: final(disk)@, result: result_view(r) }) == old(
                self,
            )@.hold_for_update_on(old(disk)@),
    {
        match self.hold_for_update() {
            Some(request) => self.carry_out(disk, &request),
            None => Ok(()),
        }
    }

    /// Writes the bytes of `contents` to the staging file on `disk`.
    pub fn write_on(&mut self, disk: &mut MemDisk, contents: &str) -> (r: Result<(), LockError>)
        ensures
            (After { lock: final(self)@, disk: final(disk)@, result: result_view(r) }) == old(
                self,
            )@.write_on(old(disk)@, contents.spec_bytes()),
    {
        match self.write(contents) {
            Ok(request) => self.carry_out(disk, &request),
            Err(e) => Err(e),
        }
    }

    /// Commits on `disk`.
    pub fn commit_on(&mut self, disk: &mut MemDisk) -> (r: Result<(), LockError>)
        ensures
            (After { lock: final(self)@, disk: final(disk)@, result: result_view(r) }) == old(
                self,
            )@.commit_on(old(disk)@),
    {
        match self.commit() {
            Ok(request) => self.carry_out(disk, &request),
            Err(e) => Err(e),
        }
    }
}

} // verus!

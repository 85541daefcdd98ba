//! The lock: which filesystem operation each call asks for, and what each answer
//! of the filesystem does to the lock.

use vstd::prelude::*;
use vstd::string::*;
use crate::error::{LockError, LockErrorView};
use crate::paths::{derive_lock_path, lock_path_of};
use crate::request::{FsOutcome, FsRequest, FsRequestView};

verus! {

/// The mathematical form of a [`Lockfile`].
pub struct LockfileView {
    /// The file that a commit replaces.
    pub target: Seq<char>,
    /// The staging file, whose existence is the lock.
    pub stage: Seq<char>,
    /// Whether this instance holds the lock.
    pub held: bool,
}

impl LockfileView {
    /// `Ok` where the lock is held, else the error that names the staging path.
    pub open spec fn raise_on_stale_lock(self) -> Result<(), LockErrorView> {
        if self.held {
            Ok(())
        } else {
            Err(LockErrorView::StaleLock { path: self.stage })
        }
    }

    /// What acquiring asks of the filesystem: nothing where the lock is held
    /// already, else to create the staging file exclusively.
    pub open spec fn hold_for_update(self) -> Option<FsRequestView> {
        if self.held {
            None
        } else {
            Some(FsRequestView::CreateExclusive { path: self.stage })
        }
    }

    /// What writing `bytes` asks of the filesystem.
    pub open spec fn write(self, bytes: Seq<u8>) -> Result<FsRequestView, LockErrorView> {
        match self.raise_on_stale_lock() {
            Ok(_) => Ok(FsRequestView::Append { path: self.stage, bytes }),
            Err(e) => Err(e),
        }
    }

    /// The lock after a commit was asked for, and what the commit asks of the
    /// filesystem. The lock is given up before the rename is tried.
    pub open spec fn commit(self) -> (LockfileView, Result<FsRequestView, LockErrorView>) {
        match self.raise_on_stale_lock() {
            Ok(_) => (
                LockfileView { held: false, ..self },
                Ok(FsRequestView::Rename { from: self.stage, to: self.target }),
            ),
            Err(e) => (self, Err(e)),
        }
    }

    /// The lock after the filesystem answered `request` with `outcome`, and how
    /// the operation that made the request ends.
    pub open spec fn settle(self, request: FsRequestView, outcome: FsOutcome) -> (
        LockfileView,
        Result<(), LockErrorView>,
    ) {
        match (request, outcome) {
            (FsRequestView::CreateExclusive { .. }, FsOutcome::Done) => (
                LockfileView { held: true, ..self },
                Ok(()),
            ),
            (_, FsOutcome::Done) => (self, Ok(())),
            (FsRequestView::CreateExclusive { .. }, FsOutcome::AlreadyExists) => (
                self,
                Err(LockErrorView::Contention { path: self.stage }),
            ),
            _ => (self, Err(LockErrorView::IoFault)),
        }
    }
}

/// The mathematical form of what an operation hands back before the filesystem
/// is asked.
pub open spec fn step_view(r: Result<FsRequest, LockError>) -> Result<
    FsRequestView,
    LockErrorView,
> {
    match r {
        Ok(request) => Ok(request@),
        Err(e) => Err(e@),
    }
}

/// The mathematical form of how an operation ends.
pub open spec fn result_view(r: Result<(), LockError>) -> Result<(), LockErrorView> {
    match r {
        Ok(_) => Ok(()),
        Err(e) => Err(e@),
    }
}

/// A lock on one target file. The staging file beside the target is the lock: who
/// created it holds the lock until it is renamed onto the target.
pub struct Lockfile {
    file_path: String,
    lock_path: String,
    held: bool,
}

impl View for Lockfile {
    type V = LockfileView;

    closed spec fn view(&self) -> LockfileView {
        LockfileView { target: self.file_path@, stage: self.lock_path@, held: self.held }
    }
}

impl Lockfile {
    /// The staging path is the one derived from the target path.
    #[verifier::type_invariant]
    spec fn staged_beside_target(self) -> bool {
        lock_path_of(self.file_path@) == Some(self.lock_path@)
    }

    /// A lock on the file at `path`, not held. Touches no file. `None` only where
    /// the staging path has no form as text.
    pub fn new(path: &str) -> (r: Option<Lockfile>)
        ensures
            match lock_path_of(path@) {
                Some(stage) => r matches Some(lock) && lock@ == (LockfileView {
                    target: path@,
                    stage,
                    held: false,
                }),
                None => r is None,
            },
    {
        match derive_lock_path(path) {
            Some(lock_path) => Some(
                Lockfile { file_path: path.to_owned(), lock_path, held: false },
            ),
            None => None,
        }
    }

    /// The target path.
    pub fn file_path(&self) -> (r: &str)
        ensures
            r@ == self@.target,
    {
        self.file_path.as_str()
    }

    /// The staging path: the target path with its extension replaced.
    pub fn lock_path(&self) -> (r: &str)
        ensures
            r@ == self@.stage,
            lock_path_of(self@.target) == Some(r@),
    {
        proof {
            use_type_invariant(self);
        }
        self.lock_path.as_str()
    }

    /// Whether this instance holds the lock.
    pub fn is_held(&self) -> (r: bool)
        ensures
            r == self@.held,
    {
        self.held
    }

    /// Starts acquiring the lock. `None`: the lock is held already and nothing is
    /// left to do. Otherwise the request to create the staging file, whose outcome
    /// goes to [`Lockfile::settle`].
    pub fn hold_for_update(&self) -> (r: Option<FsRequest>)
        ensures
            match self@.hold_for_update() {
                Some(request) => r matches Some(q) && q@ == request,
                None => r is None,
            },
    {
        if self.held {
            None
        } else {
            Some(FsRequest::CreateExclusive { path: self.lock_path.clone() })
        }
    }

    /// Starts writing `contents` to the staging file: the request to append its
    /// bytes, or the stale-lock error where the lock is not held.
    pub fn write(&self, contents: &str) -> (r: Result<FsRequest, LockError>)
        ensures
            step_view(r) == self@.write(contents.spec_bytes()),
    {
        match self.raise_on_stale_lock() {
            Ok(_) => Ok(
                FsRequest::Append { path: self.lock_path.clone(), bytes: contents.as_bytes_vec() },
            ),
            Err(e) => Err(e),
        }
    }

    /// Starts the commit: gives the lock up and hands back the request to rename
    /// the staging file onto the target, or the stale-lock error where the lock is
    /// not held.
    pub fn commit(&mut self) -> (r: Result<FsRequest, LockError>)
        ensures
            (final(self)@, step_view(r)) == old(self)@.commit(),
    {
        proof {
            use_type_invariant(&*self);
        }
        match self.raise_on_stale_lock() {
            Ok(_) => {
                self.held = false;
                Ok(FsRequest::Rename { from: self.lock_path.clone(), to: self.file_path.clone() })
            },
            Err(e) => Err(e),
        }
    }

    /// Takes the filesystem's answer to `request` and ends the operation that made
    /// it. Only an exclusive create that was carried out makes the lock held; that
    /// the path was taken is contention only for an exclusive create.
    pub fn settle(&mut self, request: &FsRequest, outcome: FsOutcome) -> (r: Result<(), LockError>)
        ensures
            (final(self)@, result_view(r)) == old(self)@.settle(request@, outcome),
    {
        proof {
            use_type_invariant(&*self);
        }
        match outcome {
            FsOutcome::Done => {
                if let FsRequest::CreateExclusive { .. } = request {
                    self.held = true;
                }
                Ok(())
            },
            FsOutcome::AlreadyExists => {
                if let FsRequest::CreateExclusive { .. } = request {
                    Err(LockError::Contention { path: self.lock_path.clone() })
                } else {
                    Err(LockError::IoFault)
                }
            },
            FsOutcome::Failed => Err(LockError::IoFault),
        }
    }

    /// Fails where this instance does not hold the lock.
    fn raise_on_stale_lock(&self) -> (r: Result<(), LockError>)
        ensures
            result_view(r) == self@.raise_on_stale_lock(),
    {
        if self.held {
            Ok(())
        } else {
            Err(LockError::StaleLock { path: self.lock_path.clone() })
        }
    }
}

} // verus!

//! The ways in which an operation on a lock fails.

use vstd::prelude::*;

verus! {

/// Why an operation on a lock failed.
#[derive(Debug, PartialEq, Eq)]
pub enum LockError {
    /// The staging file at `path` exists already: somebody else holds the lock.
    Contention { path: String },
    /// The filesystem failed for a reason other than contention.
    IoFault,
    /// The operation needs the lock, and this instance does not hold it. `path`
    /// is the staging path of the instance.
    StaleLock { path: String },
}

/// The mathematical form of a [`LockError`].
pub enum LockErrorView {
    Contention { path: Seq<char> },
    IoFault,
    StaleLock { path: Seq<char> },
}

impl View for LockError {
    type V = LockErrorView;

    open spec fn view(&self) -> LockErrorView {
        match self {
            LockError::Contention { path } => LockErrorView::Contention { path: path@ },
            LockError::IoFault => LockErrorView::IoFault,
            LockError::StaleLock { path } => LockErrorView::StaleLock { path: path@ },
        }
    }
}

} // verus!

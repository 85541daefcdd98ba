//! What the lock asks of the filesystem, and what the filesystem answers.
//!
//! The lock never touches the filesystem itself. Each operation hands back a
//! [`FsRequest`]; whoever drives the lock performs it and hands the
//! [`FsOutcome`] to [`crate::lockfile::Lockfile::settle`].

use vstd::prelude::*;

verus! {

/// One primitive operation on the filesystem.
#[derive(Debug, PartialEq, Eq)]
pub enum FsRequest {
    /// Create the file at `path` and open it for reading and writing, failing if
    /// anything exists there already. An existing file is neither truncated nor
    /// reused.
    CreateExclusive { path: String },
    /// Write `bytes` at the end of the staging file at `path`, through the handle
    /// that creating it gave.
    Append { path: String, bytes: Vec<u8> },
    /// Release the handle, then move `from` onto `to` in one atomic step.
    Rename { from: String, to: String },
}

/// The mathematical form of an [`FsRequest`].
pub enum FsRequestView {
    CreateExclusive { path: Seq<char> },
    Append { path: Seq<char>, bytes: Seq<u8> },
    Rename { from: Seq<char>, to: Seq<char> },
}

impl View for FsRequest {
    type V = FsRequestView;

    open spec fn view(&self) -> FsRequestView {
        match self {
            FsRequest::CreateExclusive { path } => FsRequestView::CreateExclusive { path: path@ },
            FsRequest::Append { path, bytes } => FsRequestView::Append {
                path: path@,
                bytes: bytes@,
            },
            FsRequest::Rename { from, to } => FsRequestView::Rename { from: from@, to: to@ },
        }
    }
}

/// How the filesystem answered a request.
#[derive(Clone, Copy, Debug, PartialEq, Eq, Structural)]
pub enum FsOutcome {
    /// The operation was carried out.
    Done,
    /// The operation failed because its path was taken already.
    AlreadyExists,
    /// The operation failed for any other reason.
    Failed,
}

} // verus!

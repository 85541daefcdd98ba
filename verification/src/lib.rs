//! A lock on one file, kept as a staging file beside it, and the atomic update of
//! that file: acquire, write to the staging file, commit by renaming it onto the
//! target.
//!
//! The lock decides and the caller acts. Each operation of a
//! [`Lockfile`] hands back the [`FsRequest`] that the filesystem has to carry out,
//! and [`Lockfile::settle`] takes the filesystem's [`FsOutcome`]. What this
//! protocol achieves on a filesystem that behaves as [`Disk`] says is stated and
//! proved in [`laws`]; [`MemDisk`] is such a filesystem, kept in memory.

pub mod disk;
pub mod error;
pub mod laws;
pub mod lockfile;
pub mod paths;
pub mod request;
pub mod session;

pub use crate::disk::{Disk, MemDisk};
pub use crate::error::{LockError, LockErrorView};
pub use crate::lockfile::{Lockfile, LockfileView};
pub use crate::paths::{derive_lock_path, LOCK_EXTENSION};
pub use crate::request::{FsOutcome, FsRequest, FsRequestView};

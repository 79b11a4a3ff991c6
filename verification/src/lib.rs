//! A file-system-based mutual-exclusion primitive: a "directory lock".
//!
//! Independent processes on one machine coordinate by atomically creating a
//! sentinel directory at an agreed path; the process that succeeds holds the
//! lock and records its process identifier in a small `pid` file inside the
//! directory. A holder that crashes leaves the directory behind; a later
//! acquirer detects that the recorded process is gone and reclaims the lock.
//!
//! This crate verifies the lock manager's logic: how the pid file's text is
//! written and read back, how the outcome of each filesystem primitive is
//! interpreted, when a lock counts as stale, and what one acquisition step
//! does to the state of the lock path. The filesystem itself and the process
//! table are outside collaborators; their behaviour enters only through the
//! small set of outcome types and the liveness query.

use vstd::prelude::*;

pub mod events;
pub mod fsmodel;
pub mod laws;
pub mod pidfile;
pub mod staleness;

verus! {

/// An error that can occur when locking or unlocking a [`DirLock`].
#[derive(Clone, Debug)]
pub enum Error {
    /// A filesystem operation failed in a way the algorithm does not absorb,
    /// annotated with the offending path where it is known.
    Io(Option<String>),
    /// The pid file's trimmed contents did not parse as a process identifier.
    ParseInt,
}

/// A handle representing ownership of the lock whose sentinel directory
/// stands at the recorded path. The filesystem is the source of truth: the
/// handle itself carries nothing but the path.
pub struct DirLock {
    path: String,
}

impl View for DirLock {
    type V = Seq<char>;

    closed spec fn view(&self) -> Seq<char> {
        self.path@
    }
}

impl DirLock {
    /// Wraps a path whose lock directory the current process has acquired.
    pub fn for_path(path: String) -> (l: DirLock)
        ensures
            l@ == path@,
    {
        DirLock { path }
    }

    /// Return the contained path.
    pub fn path(&self) -> (r: &String)
        ensures
            r@ == self@,
    {
        &self.path
    }
}

} // verus!

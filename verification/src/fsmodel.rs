//! The state of a lock path and the lock manager's transitions over it.
//!
//! A lock path has exactly two filesystem entries: the sentinel directory,
//! whose existence is the canonical "lock is held" signal, and the pid file
//! inside it. [`LockView`] is that state mathematically; [`FsModel`] is an
//! executable in-memory filesystem holding one lock path, whose primitives
//! behave as the real ones are assumed to (exclusive creation fails on an
//! existing directory, removing a non-empty directory fails, removing a
//! missing entry reports "not found"). The acquisition step and reclamation
//! are verified against this state, and the spec functions [`step_kind`] and
//! [`step_state`] say exactly what one attempt decides and changes.

use vstd::prelude::*;

use crate::DirLock;
use crate::Error;
use crate::events::{CreateDirOutcome, RemoveOutcome};
use crate::events::{interpret_remove, pidfile_path};
use crate::pidfile::{format_pid_line, is_valid_pid_text, pid_line, pid_of_text};
use crate::staleness::{PidVerdict, PidfileClass, ReadPidOutcome, classify_pidfile,
    decide_staleness, stale_decision};

verus! {

/// The state of one lock path: whether the sentinel directory exists, and
/// the pid file's bytes where the file exists.
#[verifier::ext_equal]
pub struct LockView {
    pub dir_exists: bool,
    pub pid_file: Option<Seq<u8>>,
}

impl LockView {
    /// The pid file lives inside the directory, so it can exist only while
    /// the directory does.
    pub open spec fn wf(self) -> bool {
        self.pid_file is Some ==> self.dir_exists
    }

    /// The state after a completed reclamation: nothing is left.
    pub open spec fn cleaned() -> LockView {
        LockView { dir_exists: false, pid_file: None }
    }

    /// The state right after a process with this identifier acquired the
    /// lock: the directory exists and the pid file names the holder.
    pub open spec fn held_by(pid: u32) -> LockView {
        LockView { dir_exists: true, pid_file: Some(pid_line(pid)) }
    }
}

/// An in-memory filesystem holding the state of one lock path.
pub struct FsModel {
    pub dir_exists: bool,
    pub pid_file: Option<Vec<u8>>,
}

impl View for FsModel {
    type V = LockView;

    open spec fn view(&self) -> LockView {
        LockView {
            dir_exists: self.dir_exists,
            pid_file: match self.pid_file {
                Some(v) => Some(v@),
                None => None,
            },
        }
    }
}

impl FsModel {
    /// A path at which no lock has ever been taken.
    pub fn empty() -> (m: FsModel)
        ensures
            m@ == LockView::cleaned(),
    {
        FsModel { dir_exists: false, pid_file: None }
    }

    /// Exclusive directory creation: fails exactly when the directory is
    /// already there, and that failure is reported, not propagated.
    pub fn create_dir(&mut self) -> (r: CreateDirOutcome)
        requires
            old(self)@.wf(),
        ensures
            final(self)@.wf(),
            old(self)@.dir_exists ==> (r is AlreadyExists && final(self)@ == old(self)@),
            !old(self)@.dir_exists ==> (r is Created && final(self)@ == (LockView {
                dir_exists: true,
                pid_file: None,
            })),
    {
        if self.dir_exists {
            CreateDirOutcome::AlreadyExists
        } else {
            self.dir_exists = true;
            CreateDirOutcome::Created
        }
    }

    /// Writes the pid file inside the existing directory.
    pub fn write_pid_file(&mut self, content: &Vec<u8>)
        requires
            old(self)@.dir_exists,
        ensures
            final(self)@ == (LockView { dir_exists: true, pid_file: Some(content@) }),
    {
        self.pid_file = Some(content.clone());
    }

    /// Reads the pid file; a missing file is reported as such.
    pub fn read_pid_file(&self) -> (r: ReadPidOutcome)
        ensures
            self@.pid_file matches Some(c) ==> (r matches ReadPidOutcome::Found(v) && v@ == c),
            self@.pid_file is None ==> r is NotFound,
    {
        match &self.pid_file {
            Some(v) => ReadPidOutcome::Found(v.clone()),
            None => ReadPidOutcome::NotFound,
        }
    }

    /// Removes the pid file; a missing file is "not found".
    pub fn remove_pid_file(&mut self) -> (r: RemoveOutcome)
        ensures
            old(self)@.pid_file is Some ==> (r is Removed && final(self)@ == (LockView {
                dir_exists: old(self)@.dir_exists,
                pid_file: None,
            })),
            old(self)@.pid_file is None ==> (r is NotFound && final(self)@ == old(self)@),
    {
        match &self.pid_file {
            Some(_) => {
                self.pid_file = None;
                RemoveOutcome::Removed
            },
            None => RemoveOutcome::NotFound,
        }
    }

    /// Removes the directory; a missing directory is "not found", and one
    /// that still holds the pid file cannot be removed.
    pub fn remove_dir(&mut self) -> (r: RemoveOutcome)
        ensures
            !old(self)@.dir_exists ==> (r is NotFound && final(self)@ == old(self)@),
            old(self)@.dir_exists && old(self)@.pid_file is Some ==> (r is OtherError
                && final(self)@ == old(self)@),
            old(self)@.dir_exists && old(self)@.pid_file is None ==> (r is Removed && final(self)@
                == LockView::cleaned()),
    {
        if !self.dir_exists {
            RemoveOutcome::NotFound
        } else {
            match &self.pid_file {
                Some(_) => RemoveOutcome::OtherError,
                None => {
                    self.dir_exists = false;
                    RemoveOutcome::Removed
                },
            }
        }
    }
}

/// What one acquisition attempt on a lock path in this state decides.
pub enum StepKind {
    /// The directory was absent: the attempt takes the lock.
    Acquired,
    /// The lock is held, being acquired, or its pid file is still empty:
    /// leave it alone and retry later.
    Waited,
    /// The recorded holder is gone: the attempt reclaims the lock and
    /// retries later.
    Reclaimed,
    /// The pid file's contents are malformed: the attempt stops with an
    /// error.
    Rejected,
}

/// The decision of one acquisition attempt, given the state of the lock path
/// and the oracle's answer about the recorded holder (ignored where no
/// well-formed holder is recorded).
pub open spec fn step_kind(s: LockView, owner_alive: bool) -> StepKind {
    if !s.dir_exists {
        StepKind::Acquired
    } else {
        match s.pid_file {
            None => StepKind::Waited,
            Some(c) => if c.len() == 0 {
                StepKind::Waited
            } else if !is_valid_pid_text(c) {
                StepKind::Rejected
            } else if stale_decision(
                PidfileClass::Owner(pid_of_text(c) as u32),
                owner_alive,
            ) is Reclaim {
                StepKind::Reclaimed
            } else {
                StepKind::Waited
            },
        }
    }
}

/// The state of the lock path after one acquisition attempt by a process
/// with identifier `my_pid`: taken over where the attempt acquires, cleared
/// where it reclaims, untouched otherwise.
pub open spec fn step_state(s: LockView, my_pid: u32, owner_alive: bool) -> LockView {
    match step_kind(s, owner_alive) {
        StepKind::Acquired => LockView::held_by(my_pid),
        StepKind::Waited => s,
        StepKind::Rejected => s,
        StepKind::Reclaimed => LockView::cleaned(),
    }
}

/// The state of the lock path after a reclamation: whatever was left behind
/// — the whole lock, the directory alone, or nothing — is gone.
pub open spec fn reclaim_state(s: LockView) -> LockView {
    LockView::cleaned()
}

/// What one acquisition attempt returned to its caller.
pub enum AcquireProgress {
    /// The lock was taken and the pid file written: the handle owns it.
    Acquired(DirLock),
    /// Someone holds the lock (after reclaiming it first where `reclaimed`
    /// is set): wait the fixed interval and retry.
    Contended { reclaimed: bool },
    /// A fatal error: malformed pid file contents.
    Failed(Error),
}

/// Reclamation: removes the pid file, then the directory, treating entries
/// already gone as removed. The order matters, since a non-empty directory
/// cannot be removed; on this model's state both removals succeed, whatever
/// was left behind, which is exactly reclamation's idempotence.
pub fn clean_up_path(path: &String, fs: &mut FsModel) -> (r: Result<(), Error>)
    requires
        old(fs)@.wf(),
    ensures
        r == Ok::<(), Error>(()),
        final(fs)@ == reclaim_state(old(fs)@),
{
    let pidfile = pidfile_path(path);
    let file_outcome = fs.remove_pid_file();
    match interpret_remove(&file_outcome, &pidfile) {
        Ok(()) => {},
        Err(e) => {
            return Err(e);
        },
    }
    let dir_outcome = fs.remove_dir();
    match interpret_remove(&dir_outcome, path) {
        Ok(()) => {},
        Err(e) => {
            return Err(e);
        },
    }
    Ok(())
}

impl DirLock {
    /// One iteration of the acquisition loop at `path`, run by a process
    /// with identifier `my_pid`, against the lock path's state: try to
    /// create the directory; on success write the pid file and hold the
    /// lock; on contention inspect the pid file, reclaim a stale lock, and
    /// report that the caller should wait and retry. `owner_alive` is the
    /// oracle's answer about the recorded holder, consulted only where the
    /// pid file names one well-formed, non-zero identifier.
    pub fn try_acquire(path: &String, my_pid: u32, owner_alive: bool, fs: &mut FsModel) -> (r:
        AcquireProgress)
        requires
            old(fs)@.wf(),
        ensures
            final(fs)@ == step_state(old(fs)@, my_pid, owner_alive),
            final(fs)@.wf(),
            (match r {
                AcquireProgress::Acquired(lock) => step_kind(old(fs)@, owner_alive) is Acquired
                    && lock@ == path@,
                AcquireProgress::Contended { reclaimed } => if reclaimed {
                    step_kind(old(fs)@, owner_alive) is Reclaimed
                } else {
                    step_kind(old(fs)@, owner_alive) is Waited
                },
                AcquireProgress::Failed(e) => step_kind(old(fs)@, owner_alive) is Rejected && e
                    == Error::ParseInt,
            }),
    {
        match fs.create_dir() {
            CreateDirOutcome::Created => {
                let line = format_pid_line(my_pid);
                fs.write_pid_file(&line);
                AcquireProgress::Acquired(DirLock::for_path(path.clone()))
            },
            CreateDirOutcome::AlreadyExists => {
                let read = fs.read_pid_file();
                let pidfile = pidfile_path(path);
                match classify_pidfile(&read, &pidfile) {
                    Err(e) => AcquireProgress::Failed(e),
                    Ok(class) => match decide_staleness(&class, owner_alive) {
                        PidVerdict::Wait => AcquireProgress::Contended { reclaimed: false },
                        PidVerdict::Reclaim => {
                            // always succeeds on this state, per its contract
                            let _ = clean_up_path(path, fs);
                            AcquireProgress::Contended { reclaimed: true }
                        },
                    },
                }
            },
            CreateDirOutcome::OtherError => {
                // this state's creation only ever succeeds or finds the
                // directory already there
                proof {
                    assert(false);
                }
                AcquireProgress::Failed(Error::Io(None))
            },
        }
    }

    /// Release: reclaims this handle's lock path, removing the pid file and
    /// then the directory, treating entries already gone as removed.
    pub fn clean_up_sync(&self, fs: &mut FsModel) -> (r: Result<(), Error>)
        requires
            old(fs)@.wf(),
        ensures
            r == Ok::<(), Error>(()),
            final(fs)@ == reclaim_state(old(fs)@),
    {
        clean_up_path(self.path(), fs)
    }
}

} // verus!

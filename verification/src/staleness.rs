//! Staleness detection: deciding, from what the pid file holds, whether an
//! existing lock directory belongs to a process that is gone and may be
//! reclaimed, or must be left alone.
//!
//! The rules, in order: a missing pid file means another process is between
//! creating the directory and writing its identifier, so the lock is not
//! stale; an empty pid file means the identifier is still being written, so
//! the lock is not stale either (a heuristic without a timestamp bound: a
//! permanently empty pid file starves that lock); malformed contents are a
//! fatal error, since corrupt state does not heal by waiting; and a
//! well-formed identifier is put to the process-liveness oracle, whose "no
//! such process" answer alone makes the lock stale.

use vstd::prelude::*;

use crate::Error;
use crate::pidfile::{is_valid_pid_text, parse_pid, pid_of_text};

verus! {

/// What reading the pid file inside an existing lock directory yielded.
pub enum ReadPidOutcome {
    /// The file exists and holds these bytes.
    Found(Vec<u8>),
    /// The file does not exist.
    NotFound,
    /// Any other failure: fatal.
    OtherError,
}

/// What the pid file says about the lock's holder.
pub enum PidfileClass {
    /// No verdict against the holder: the file is missing or still being
    /// written. The lock must be left alone.
    NotStale,
    /// The file names this process identifier as the holder.
    Owner(u32),
}

/// What an acquirer that found the directory already present does next.
pub enum PidVerdict {
    /// Leave the lock alone and retry after the fixed interval.
    Wait,
    /// The holder is gone: remove the pid file and the directory.
    Reclaim,
}

/// Classifies the pid file's contents, without consulting the oracle. A read
/// failure other than "not found" is fatal, annotated with the pid file's
/// path; contents that do not parse are a [`Error::ParseInt`] error.
pub fn classify_pidfile(read: &ReadPidOutcome, pidfile: &String) -> (r: Result<
    PidfileClass,
    Error,
>)
    ensures
        read is NotFound ==> r == Ok::<PidfileClass, Error>(PidfileClass::NotStale),
        read is OtherError ==> r == Err::<PidfileClass, Error>(Error::Io(Some(*pidfile))),
        read matches ReadPidOutcome::Found(c) ==> (if c@.len() == 0 {
            r == Ok::<PidfileClass, Error>(PidfileClass::NotStale)
        } else if !is_valid_pid_text(c@) {
            r == Err::<PidfileClass, Error>(Error::ParseInt)
        } else {
            r == Ok::<PidfileClass, Error>(PidfileClass::Owner(pid_of_text(c@) as u32))
        }),
{
    match read {
        ReadPidOutcome::NotFound => Ok(PidfileClass::NotStale),
        ReadPidOutcome::OtherError => Err(Error::Io(Some(pidfile.clone()))),
        ReadPidOutcome::Found(c) => {
            if c.len() == 0 {
                // assume the pid file is still being written if empty
                Ok(PidfileClass::NotStale)
            } else {
                match parse_pid(c.as_slice()) {
                    Ok(pid) => Ok(PidfileClass::Owner(pid)),
                    Err(e) => Err(e),
                }
            }
        },
    }
}

/// The staleness rule over the oracle's answer: only a named holder that the
/// oracle reports gone makes the lock stale, and identifier 0 counts as
/// always existing.
pub open spec fn stale_decision(class: PidfileClass, owner_alive: bool) -> PidVerdict {
    match class {
        PidfileClass::NotStale => PidVerdict::Wait,
        PidfileClass::Owner(pid) => if pid != 0 && !owner_alive {
            PidVerdict::Reclaim
        } else {
            PidVerdict::Wait
        },
    }
}

/// Applies [`stale_decision`] to a classification and an oracle answer.
pub fn decide_staleness(class: &PidfileClass, owner_alive: bool) -> (v: PidVerdict)
    ensures
        v == stale_decision(*class, owner_alive),
{
    match class {
        PidfileClass::NotStale => PidVerdict::Wait,
        PidfileClass::Owner(pid) => {
            if *pid != 0 && !owner_alive {
                PidVerdict::Reclaim
            } else {
                PidVerdict::Wait
            }
        },
    }
}

/// Relies on sysinfo's `System::refresh_processes_specifics`: asked to
/// refresh exactly the one given process, it returns the number of processes
/// it found and updated, so the count is positive exactly when the process
/// table currently lists the identifier. The answer depends on the machine's
/// state at the moment of the call.
#[verifier::external_body]
fn refreshed_process_count(pid: u32) -> usize {
    let mut system = sysinfo::System::new();
    system.refresh_processes_specifics(
        sysinfo::ProcessesToUpdate::Some(&[sysinfo::Pid::from_u32(pid)]),
        true,
        sysinfo::ProcessRefreshKind::default(),
    )
}

/// The process-liveness oracle: does a process with this identifier
/// currently exist? Identifier 0 is treated as always existing (the
/// platform's idle/system process convention). For any other identifier the
/// answer is the process table's, at the moment of the call.
pub fn pid_exists(pid: u32) -> (r: bool)
    ensures
        pid == 0 ==> r,
{
    if pid == 0 {
        true
    } else {
        refreshed_process_count(pid) > 0
    }
}

/// The whole already-exists path's decision: classifies the pid file and,
/// where it names a holder, asks the oracle. A reclaim verdict is returned
/// only for a well-formed, non-zero identifier whose process the oracle
/// reported gone at the moment of the call.
pub fn evaluate_pidfile(read: &ReadPidOutcome, pidfile: &String) -> (r: Result<PidVerdict, Error>)
    ensures
        read is NotFound ==> r == Ok::<PidVerdict, Error>(PidVerdict::Wait),
        read is OtherError ==> r == Err::<PidVerdict, Error>(Error::Io(Some(*pidfile))),
        read matches ReadPidOutcome::Found(c) ==> (if c@.len() == 0 {
            r == Ok::<PidVerdict, Error>(PidVerdict::Wait)
        } else if !is_valid_pid_text(c@) {
            r == Err::<PidVerdict, Error>(Error::ParseInt)
        } else {
            r is Ok
        }),
        r == Ok::<PidVerdict, Error>(PidVerdict::Reclaim) ==> (read matches ReadPidOutcome::Found(
            c,
        ) && c@.len() > 0 && is_valid_pid_text(c@) && pid_of_text(c@) != 0),
{
    match classify_pidfile(read, pidfile) {
        Err(e) => Err(e),
        Ok(class) => {
            let alive = match &class {
                PidfileClass::NotStale => true,
                PidfileClass::Owner(pid) => pid_exists(*pid),
            };
            Ok(decide_staleness(&class, alive))
        },
    }
}

} // verus!

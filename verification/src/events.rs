//! The outcomes of the filesystem primitives the lock manager drives, and
//! the rules that turn each outcome into progress or an error.
//!
//! The lock manager never touches the filesystem itself: whoever runs it
//! (the blocking and the suspending acquisition loops alike) performs one
//! primitive at a time and hands back what happened. Exactly two failure
//! conditions are absorbed rather than propagated: "already exists" when
//! creating the lock directory, which is the normal contention signal, and
//! "not found" when removing the pid file or the directory, which means a
//! concurrent reclamation got there first.

use vstd::prelude::*;

use crate::Error;
use vstd::string::StringExecFns;

verus! {

/// What attempting to create the lock directory yielded.
pub enum CreateDirOutcome {
    /// The directory did not exist and was created: the lock is ours.
    Created,
    /// The directory already exists: somebody holds (or is acquiring) the lock.
    AlreadyExists,
    /// Any other failure: fatal.
    OtherError,
}

/// What removing the pid file or the lock directory yielded.
pub enum RemoveOutcome {
    /// The entry existed and was removed.
    Removed,
    /// The entry was already gone.
    NotFound,
    /// Any other failure: fatal.
    OtherError,
}

/// The location of the pid file inside the lock directory at `path`.
pub fn pidfile_path(path: &String) -> (r: String)
    ensures
        r@ == path@ + "/pid"@,
{
    let mut p = path.clone();
    p.append("/pid");
    p
}

/// The rule of acquisition's first step: a created directory means the lock
/// was taken, an existing one means contention, and every other failure is
/// fatal, annotated with the lock path.
pub fn interpret_create_dir(outcome: &CreateDirOutcome, path: &String) -> (r: Result<bool, Error>)
    ensures
        outcome is Created ==> r == Ok::<bool, Error>(true),
        outcome is AlreadyExists ==> r == Ok::<bool, Error>(false),
        outcome is OtherError ==> r == Err::<bool, Error>(Error::Io(Some(*path))),
{
    match outcome {
        CreateDirOutcome::Created => Ok(true),
        CreateDirOutcome::AlreadyExists => Ok(false),
        CreateDirOutcome::OtherError => Err(Error::Io(Some(path.clone()))),
    }
}

/// The rule of reclamation: an entry already gone counts as removed, since a
/// concurrent reclaimer may have got there first; every other failure is
/// fatal, annotated with the entry's path.
pub fn interpret_remove(outcome: &RemoveOutcome, target: &String) -> (r: Result<(), Error>)
    ensures
        outcome is Removed ==> r == Ok::<(), Error>(()),
        outcome is NotFound ==> r == Ok::<(), Error>(()),
        outcome is OtherError ==> r == Err::<(), Error>(Error::Io(Some(*target))),
{
    match outcome {
        RemoveOutcome::Removed => Ok(()),
        RemoveOutcome::NotFound => Ok(()),
        RemoveOutcome::OtherError => Err(Error::Io(Some(target.clone()))),
    }
}

} // verus!

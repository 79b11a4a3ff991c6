use dir_lock::events::{
    CreateDirOutcome, RemoveOutcome, interpret_create_dir, interpret_remove, pidfile_path,
};
use dir_lock::fsmodel::{AcquireProgress, FsModel};
use dir_lock::staleness::{
    PidVerdict, PidfileClass, ReadPidOutcome, classify_pidfile, decide_staleness,
    evaluate_pidfile, pid_exists,
};
use dir_lock::pidfile::format_pid_line;
use dir_lock::{DirLock, Error};

fn lock_path() -> String {
    String::from("/tmp/mylock")
}

fn held_by(line: &[u8]) -> FsModel {
    FsModel { dir_exists: true, pid_file: Some(line.to_vec()) }
}

#[test]
fn acquire_on_free_path_writes_own_pid() {
    let mut fs = FsModel::empty();
    let path = lock_path();
    match DirLock::try_acquire(&path, 4242, false, &mut fs) {
        AcquireProgress::Acquired(lock) => assert_eq!(lock.path(), &path),
        _ => panic!("expected acquisition on a free path"),
    }
    assert!(fs.dir_exists);
    assert_eq!(fs.pid_file, Some(b"4242\n".to_vec()));
}

#[test]
fn second_attempt_cannot_acquire() {
    let mut fs = FsModel::empty();
    let path = lock_path();
    match DirLock::try_acquire(&path, 1, true, &mut fs) {
        AcquireProgress::Acquired(_) => {}
        _ => panic!("expected acquisition on a free path"),
    }
    match DirLock::try_acquire(&path, 2, true, &mut fs) {
        AcquireProgress::Contended { reclaimed } => assert!(!reclaimed),
        _ => panic!("expected contention against a held lock"),
    }
    assert_eq!(fs.pid_file, Some(b"1\n".to_vec()));
}

#[test]
fn stale_lock_reclaimed_then_taken() {
    // process 4242 held the lock and crashed without releasing
    let mut fs = held_by(b"4242\n");
    let path = lock_path();
    // the new acquirer reads pid 4242; the oracle reports it gone: reclaim
    match DirLock::try_acquire(&path, 7777, false, &mut fs) {
        AcquireProgress::Contended { reclaimed } => assert!(reclaimed),
        _ => panic!("expected reclamation of the stale lock"),
    }
    assert!(!fs.dir_exists);
    assert_eq!(fs.pid_file, None);
    // after the wait interval, the retry acquires and records its own pid
    match DirLock::try_acquire(&path, 7777, false, &mut fs) {
        AcquireProgress::Acquired(lock) => assert_eq!(lock.path(), &path),
        _ => panic!("expected acquisition after reclamation"),
    }
    assert!(fs.dir_exists);
    assert_eq!(fs.pid_file, Some(b"7777\n".to_vec()));
}

#[test]
fn live_owner_is_left_alone() {
    let mut fs = held_by(b"4242\n");
    match DirLock::try_acquire(&lock_path(), 7777, true, &mut fs) {
        AcquireProgress::Contended { reclaimed } => assert!(!reclaimed),
        _ => panic!("expected contention against a live owner"),
    }
    assert!(fs.dir_exists);
    assert_eq!(fs.pid_file, Some(b"4242\n".to_vec()));
}

#[test]
fn empty_pidfile_is_never_reclaimed() {
    for oracle_answer in [false, true] {
        let mut fs = held_by(b"");
        match DirLock::try_acquire(&lock_path(), 7777, oracle_answer, &mut fs) {
            AcquireProgress::Contended { reclaimed } => assert!(!reclaimed),
            _ => panic!("expected a wait on an empty pid file"),
        }
        assert!(fs.dir_exists);
        assert_eq!(fs.pid_file, Some(Vec::new()));
    }
}

#[test]
fn missing_pidfile_means_acquisition_in_progress() {
    let mut fs = FsModel { dir_exists: true, pid_file: None };
    match DirLock::try_acquire(&lock_path(), 7777, false, &mut fs) {
        AcquireProgress::Contended { reclaimed } => assert!(!reclaimed),
        _ => panic!("expected a wait on a missing pid file"),
    }
    assert!(fs.dir_exists);
    assert_eq!(fs.pid_file, None);
}

#[test]
fn malformed_pidfile_is_a_fatal_error() {
    let mut fs = held_by(b"not-a-number");
    match DirLock::try_acquire(&lock_path(), 7777, false, &mut fs) {
        AcquireProgress::Failed(Error::ParseInt) => {}
        _ => panic!("expected a malformed-identifier error"),
    }
    // nothing was reclaimed and nothing changed
    assert!(fs.dir_exists);
    assert_eq!(fs.pid_file, Some(b"not-a-number".to_vec()));
}

#[test]
fn zero_pid_is_never_stale() {
    let mut fs = held_by(b"0\n");
    match DirLock::try_acquire(&lock_path(), 7777, false, &mut fs) {
        AcquireProgress::Contended { reclaimed } => assert!(!reclaimed),
        _ => panic!("expected a wait on the idle-process identifier"),
    }
    assert!(fs.dir_exists);
}

#[test]
fn reclamation_is_idempotent() {
    let lock = DirLock::for_path(lock_path());
    let mut fs = held_by(b"1\n");
    assert!(lock.clean_up_sync(&mut fs).is_ok());
    assert!(!fs.dir_exists);
    assert_eq!(fs.pid_file, None);
    // the second pass observes "not found" twice and still succeeds
    assert!(lock.clean_up_sync(&mut fs).is_ok());
    assert!(!fs.dir_exists);
    assert_eq!(fs.pid_file, None);
}

#[test]
fn acquire_release_acquire_round_trip() {
    let path = lock_path();
    let mut fs = FsModel::empty();
    let lock = match DirLock::try_acquire(&path, 11, true, &mut fs) {
        AcquireProgress::Acquired(lock) => lock,
        _ => panic!("expected the first acquisition to succeed"),
    };
    assert!(lock.clean_up_sync(&mut fs).is_ok());
    match DirLock::try_acquire(&path, 22, true, &mut fs) {
        AcquireProgress::Acquired(_) => {}
        _ => panic!("expected re-acquisition to succeed"),
    }
    // exactly one pid file, holding the new owner's identifier
    assert!(fs.dir_exists);
    assert_eq!(fs.pid_file, Some(format_pid_line(22)));
}

#[test]
fn pidfile_path_appends_pid_entry() {
    assert_eq!(pidfile_path(&lock_path()), "/tmp/mylock/pid");
}

#[test]
fn create_dir_outcomes_interpreted() {
    let path = lock_path();
    assert!(matches!(interpret_create_dir(&CreateDirOutcome::Created, &path), Ok(true)));
    assert!(matches!(interpret_create_dir(&CreateDirOutcome::AlreadyExists, &path), Ok(false)));
    match interpret_create_dir(&CreateDirOutcome::OtherError, &path) {
        Err(Error::Io(Some(p))) => assert_eq!(p, path),
        _ => panic!("expected a fatal error annotated with the lock path"),
    }
}

#[test]
fn remove_outcomes_interpreted() {
    let target = pidfile_path(&lock_path());
    assert!(matches!(interpret_remove(&RemoveOutcome::Removed, &target), Ok(())));
    assert!(matches!(interpret_remove(&RemoveOutcome::NotFound, &target), Ok(())));
    match interpret_remove(&RemoveOutcome::OtherError, &target) {
        Err(Error::Io(Some(p))) => assert_eq!(p, target),
        _ => panic!("expected a fatal error annotated with the target path"),
    }
}

#[test]
fn classify_reads_the_recorded_owner() {
    let pidfile = pidfile_path(&lock_path());
    assert!(matches!(
        classify_pidfile(&ReadPidOutcome::Found(b" 99 ".to_vec()), &pidfile),
        Ok(PidfileClass::Owner(99))
    ));
    assert!(matches!(
        classify_pidfile(&ReadPidOutcome::Found(Vec::new()), &pidfile),
        Ok(PidfileClass::NotStale)
    ));
    assert!(matches!(
        classify_pidfile(&ReadPidOutcome::NotFound, &pidfile),
        Ok(PidfileClass::NotStale)
    ));
    assert!(matches!(
        classify_pidfile(&ReadPidOutcome::Found(b"nope".to_vec()), &pidfile),
        Err(Error::ParseInt)
    ));
    match classify_pidfile(&ReadPidOutcome::OtherError, &pidfile) {
        Err(Error::Io(Some(p))) => assert_eq!(p, pidfile),
        _ => panic!("expected a fatal error annotated with the pid file's path"),
    }
}

#[test]
fn staleness_decision_rules() {
    assert!(matches!(
        decide_staleness(&PidfileClass::Owner(5), false),
        PidVerdict::Reclaim
    ));
    assert!(matches!(decide_staleness(&PidfileClass::Owner(5), true), PidVerdict::Wait));
    assert!(matches!(decide_staleness(&PidfileClass::Owner(0), false), PidVerdict::Wait));
    assert!(matches!(decide_staleness(&PidfileClass::NotStale, false), PidVerdict::Wait));
    assert!(matches!(decide_staleness(&PidfileClass::NotStale, true), PidVerdict::Wait));
}

#[test]
fn oracle_reports_zero_and_current_process_alive() {
    assert!(pid_exists(0));
    let me = sysinfo::get_current_pid().expect("current pid").as_u32();
    assert!(pid_exists(me));
}

#[test]
fn oracle_reports_impossible_identifier_gone() {
    // far above any identifier the platform hands out
    assert!(!pid_exists(4_000_000_000));
}

#[test]
fn evaluate_pidfile_consults_the_oracle() {
    let pidfile = pidfile_path(&lock_path());
    assert!(matches!(
        evaluate_pidfile(&ReadPidOutcome::NotFound, &pidfile),
        Ok(PidVerdict::Wait)
    ));
    assert!(matches!(
        evaluate_pidfile(&ReadPidOutcome::Found(Vec::new()), &pidfile),
        Ok(PidVerdict::Wait)
    ));
    assert!(matches!(
        evaluate_pidfile(&ReadPidOutcome::Found(b"0\n".to_vec()), &pidfile),
        Ok(PidVerdict::Wait)
    ));
    assert!(matches!(
        evaluate_pidfile(&ReadPidOutcome::Found(b"bad".to_vec()), &pidfile),
        Err(Error::ParseInt)
    ));
    let me = sysinfo::get_current_pid().expect("current pid").as_u32();
    let mine = format_pid_line(me);
    assert!(matches!(
        evaluate_pidfile(&ReadPidOutcome::Found(mine), &pidfile),
        Ok(PidVerdict::Wait)
    ));
    assert!(matches!(
        evaluate_pidfile(&ReadPidOutcome::Found(b"4000000000\n".to_vec()), &pidfile),
        Ok(PidVerdict::Reclaim)
    ));
    match evaluate_pidfile(&ReadPidOutcome::OtherError, &pidfile) {
        Err(Error::Io(Some(p))) => assert_eq!(p, pidfile),
        _ => panic!("expected a fatal error annotated with the pid file's path"),
    }
}

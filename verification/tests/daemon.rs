use gnirehtet_vd::daemon::{
    daemon_identity_matches, daemon_pid_text, own_identity, parse_process, process_is_running,
    read_daemon_pid, terminate_daemon, DaemonIdentity, DaemonRecord, ExitWait, LockAction,
    LockCreation, LockStep, OperationGuard, TerminateAction, TerminateStep, TerminationFailure,
    WindowsProcessSnapshot, STILL_ACTIVE,
};
use gnirehtet_vd::state::SessionId;
use gnirehtet_vd::time::Duration;

fn identity(session_id: String) -> DaemonIdentity {
    DaemonIdentity {
        role: "gnirehtet-vd-daemon".to_owned(),
        pid: 42,
        creation_time_100ns: 100,
        session_id,
        executable_path: r"C:\Program Files\Quest VD Wired\quest-vd-wired.exe".to_owned(),
    }
}

fn valid() -> WindowsProcessSnapshot {
    WindowsProcessSnapshot {
        active: true,
        creation_time_100ns: 100,
        executable_path: r"c:\program files\quest vd wired\QUEST-VD-WIRED.EXE".to_owned(),
    }
}

#[test]
fn daemon_identity_rejects_pid_reuse_and_wrong_image_or_session() {
    let session = SessionId([0x44; 16]).to_text();
    let identity_of_session = identity(session);
    assert!(daemon_identity_matches(&identity_of_session, &valid()));

    let mut reused = valid();
    reused.creation_time_100ns += 1;
    assert!(!daemon_identity_matches(&identity_of_session, &reused));
    let mut wrong_image = valid();
    wrong_image.executable_path = r"C:\Other\quest-vd-wired.exe".to_owned();
    assert!(!daemon_identity_matches(&identity_of_session, &wrong_image));
    let zero_session = identity(SessionId::zero().to_text());
    assert!(!daemon_identity_matches(&zero_session, &valid()));
}

#[test]
fn an_identity_of_another_role_or_a_dead_process_does_not_match() {
    let mut other_role = identity(SessionId([0x44; 16]).to_text());
    other_role.role = "gnirehtet-vd-helper".to_owned();
    assert!(!daemon_identity_matches(&other_role, &valid()));
    let mut dead = valid();
    dead.active = false;
    assert!(!daemon_identity_matches(&identity(SessionId([0x44; 16]).to_text()), &dead));
}

struct LockFile {
    text: Option<String>,
}

fn acquire(lock: &mut LockFile, owner: u32, running: &[u32]) -> Result<(), LockAction> {
    let mut step = LockStep::Begin;
    loop {
        match OperationGuard::acquire(&step) {
            LockAction::Create { again } => {
                let creation = if lock.text.is_some() {
                    LockCreation::AlreadyExists
                } else {
                    lock.text = Some(String::new());
                    LockCreation::Created
                };
                step = LockStep::Tried { creation, again };
            }
            LockAction::ReadOwner => {
                let owner_running = lock
                    .text
                    .as_deref()
                    .and_then(parse_process)
                    .is_some_and(|owner| running.contains(&owner));
                step = LockStep::OwnerRead { text: lock.text.clone(), owner_running };
            }
            LockAction::Remove => {
                lock.text = None;
                step = LockStep::Removed { succeeded: true };
            }
            LockAction::WriteOwner => {
                lock.text = Some(OperationGuard { owner }.text());
                return Ok(());
            }
            refusal => return Err(refusal),
        }
    }
}

#[test]
fn operation_lock_serializes_mutations() {
    let mut lock = LockFile { text: None };
    assert_eq!(acquire(&mut lock, 7, &[7]), Ok(()));
    assert_eq!(lock.text.as_deref(), Some("7\n"));
    assert_eq!(acquire(&mut lock, 8, &[7, 8]), Err(LockAction::Held));
    lock.text = None;
    assert_eq!(acquire(&mut lock, 8, &[7, 8]), Ok(()));
}

#[test]
fn a_lock_without_a_running_owner_is_replaced() {
    let mut lock = LockFile { text: Some("7\n".to_owned()) };
    assert_eq!(acquire(&mut lock, 9, &[9]), Ok(()));
    assert_eq!(lock.text.as_deref(), Some("9\n"));
    let mut lock = LockFile { text: Some("nobody".to_owned()) };
    assert_eq!(acquire(&mut lock, 9, &[9]), Ok(()));
    assert_eq!(
        OperationGuard::acquire(&LockStep::Tried {
            creation: LockCreation::AlreadyExists,
            again: true,
        }),
        LockAction::Fail
    );
    assert_eq!(
        OperationGuard::acquire(&LockStep::Tried { creation: LockCreation::Failed, again: false }),
        LockAction::Fail
    );
    assert_eq!(
        OperationGuard::acquire(&LockStep::Removed { succeeded: false }),
        LockAction::Fail
    );
    assert_eq!(
        OperationGuard::acquire(&LockStep::OwnerRead { text: None, owner_running: true }),
        LockAction::Remove
    );
}

#[test]
fn the_number_of_the_daemon_reads_back() {
    assert_eq!(daemon_pid_text(4_294_967_295), "4294967295");
    for pid in [0, 9, 10, 4_242, u32::MAX] {
        let record = DaemonRecord::Text(daemon_pid_text(pid));
        assert_eq!(read_daemon_pid(&record), Some(pid));
    }
    assert_eq!(read_daemon_pid(&DaemonRecord::Text(" 17\r\n".to_owned())), Some(17));
    assert_eq!(read_daemon_pid(&DaemonRecord::Text("4294967296".to_owned())), None);
    assert_eq!(read_daemon_pid(&DaemonRecord::Text("-1".to_owned())), None);
    assert_eq!(read_daemon_pid(&DaemonRecord::Unavailable), None);
    assert_eq!(parse_process("+5"), Some(5));
    assert_eq!(parse_process(""), None);
}

#[test]
fn an_identity_gives_a_number_only_for_its_own_process() {
    let session = SessionId([0x44; 16]).to_text();
    let record =
        DaemonRecord::Identity { identity: identity(session.clone()), process: Some(valid()) };
    assert_eq!(read_daemon_pid(&record), Some(42));
    let record = DaemonRecord::Identity { identity: identity(session), process: None };
    assert_eq!(read_daemon_pid(&record), None);
}

#[test]
fn a_process_recognises_the_identity_that_it_left() {
    let session = SessionId([0x45; 16]);
    let process = WindowsProcessSnapshot::new(STILL_ACTIVE, 2, 3, "C:\\vd.exe".to_owned());
    assert_eq!(process.creation_time_100ns, 0x2_0000_0003);
    let own = own_identity(11, session, process).unwrap();
    assert_eq!(own.pid, 11);
    assert_eq!(own.role, "gnirehtet-vd-daemon");
    let again = WindowsProcessSnapshot::new(259, 2, 3, "c:\\VD.exe".to_owned());
    assert!(daemon_identity_matches(&own, &again));
    let exited = WindowsProcessSnapshot::new(0, 2, 3, "C:\\vd.exe".to_owned());
    assert!(own_identity(11, session, exited).is_none());
}

#[test]
fn no_process_has_the_number_zero() {
    assert!(!process_is_running(0, true));
    assert!(process_is_running(1, true));
    assert!(!process_is_running(1, false));
}

#[test]
fn only_the_recognised_process_is_ended() {
    let timeout = Duration::from_secs(5);
    let session = SessionId([0x44; 16]).to_text();
    let step = TerminateStep::Recorded(DaemonRecord::Identity {
        identity: identity(session.clone()),
        process: Some(valid()),
    });
    assert_eq!(terminate_daemon(&step, timeout), TerminateAction::EndProcess);
    let mut reused = valid();
    reused.creation_time_100ns = 101;
    let step = TerminateStep::Recorded(DaemonRecord::Identity {
        identity: identity(session),
        process: Some(reused),
    });
    assert_eq!(
        terminate_daemon(&step, timeout),
        TerminateAction::Done(Err(TerminationFailure::IdentityMismatch))
    );
    let step = TerminateStep::Recorded(DaemonRecord::Identity {
        identity: identity(SessionId([0x44; 16]).to_text()),
        process: None,
    });
    assert_eq!(
        terminate_daemon(&step, timeout),
        TerminateAction::Done(Err(TerminationFailure::HostError))
    );
    assert_eq!(
        terminate_daemon(&TerminateStep::Recorded(DaemonRecord::Unavailable), timeout),
        TerminateAction::Done(Err(TerminationFailure::IdentityUnavailable))
    );
    assert_eq!(
        terminate_daemon(
            &TerminateStep::Recorded(DaemonRecord::Text("31\n".to_owned())),
            timeout,
        ),
        TerminateAction::RunCommand(31)
    );
}

#[test]
fn the_end_of_the_daemon_is_waited_for() {
    let ended = TerminateStep::Ended { succeeded: true };
    assert_eq!(
        terminate_daemon(&ended, Duration::from_millis(1_500)),
        TerminateAction::AwaitExit(1_500)
    );
    assert_eq!(
        terminate_daemon(&ended, Duration::from_secs(u64::MAX)),
        TerminateAction::AwaitExit(u32::MAX)
    );
    let cases = [
        (TerminateStep::Ended { succeeded: false }, Err(TerminationFailure::HostError)),
        (TerminateStep::CommandRun { succeeded: true }, Ok(())),
        (TerminateStep::CommandRun { succeeded: false }, Err(TerminationFailure::CommandFailed)),
        (TerminateStep::Awaited(ExitWait::Exited), Ok(())),
        (TerminateStep::Awaited(ExitWait::TimedOut), Err(TerminationFailure::TimedOut)),
        (TerminateStep::Awaited(ExitWait::Failed), Err(TerminationFailure::HostError)),
    ];
    for (step, result) in cases {
        assert_eq!(
            terminate_daemon(&step, Duration::from_secs(1)),
            TerminateAction::Done(result)
        );
    }
    assert_eq!(
        TerminationFailure::IdentityMismatch.as_str(),
        "daemon identity no longer matches the live process"
    );
    assert_eq!(
        TerminationFailure::TimedOut.as_str(),
        "verified daemon did not exit before the deadline"
    );
}

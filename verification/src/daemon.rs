//! The identity of the daemon process: how it is left behind, recognised and used to end exactly
//! that process, and the locks that name their owner.
use crate::state::{is_session_name, names_session, SessionId};
use crate::text::{
    decimal_digits, format_unsigned, joined, lower, parse_unsigned, same_text,
    same_text_ignoring_case, trim, trimmed, unsigned_value,
};
use crate::time::Duration;
use vstd::prelude::*;

verus! {

/// The role of the daemon among the processes of this product.
pub const DAEMON_ROLE: &'static str = "gnirehtet-vd-daemon";

/// The exit code of a process that has not exited.
pub const STILL_ACTIVE: u32 = 259;

/// What the daemon leaves behind to be recognised by.
#[derive(Debug)]
pub struct DaemonIdentity {
    pub role: String,
    pub pid: u32,
    pub creation_time_100ns: u64,
    pub session_id: String,
    pub executable_path: String,
}

/// A process of the host at one moment.
#[derive(Debug)]
pub struct WindowsProcessSnapshot {
    pub active: bool,
    pub creation_time_100ns: u64,
    pub executable_path: String,
}

/// Two halves of a time, put together.
pub open spec fn whole_time(high: u32, low: u32) -> u64 {
    (high * 0x1_0000_0000 + low) as u64
}

impl WindowsProcessSnapshot {
    /// The process as the host describes it: by its exit code, the two halves of the time of its
    /// creation and its executable.
    pub fn new(exit_code: u32, creation_high: u32, creation_low: u32, executable_path: String) -> (
    snapshot: WindowsProcessSnapshot)
        ensures
            snapshot == (WindowsProcessSnapshot {
                active: exit_code == STILL_ACTIVE,
                creation_time_100ns: whole_time(creation_high, creation_low),
                executable_path,
            }),
    {
        let high = creation_high as u64;
        let low = creation_low as u64;
        WindowsProcessSnapshot {
            active: exit_code == STILL_ACTIVE,
            creation_time_100ns: high * 0x1_0000_0000 + low,
            executable_path,
        }
    }
}

/// The process is the daemon that left the identity: it runs, was created at the same time from
/// the same executable, and the identity is one of a daemon with a session.
pub open spec fn identifies(identity: DaemonIdentity, snapshot: WindowsProcessSnapshot) -> bool {
    &&& identity.role@ == DAEMON_ROLE@
    &&& names_session(identity.session_id@)
    &&& snapshot.active
    &&& snapshot.creation_time_100ns == identity.creation_time_100ns
    &&& lower(snapshot.executable_path@) == lower(identity.executable_path@)
}

pub fn daemon_identity_matches(identity: &DaemonIdentity, snapshot: &WindowsProcessSnapshot) -> (
matches: bool)
    ensures
        matches == identifies(*identity, *snapshot),
{
    same_text(identity.role.as_str(), DAEMON_ROLE) && is_session_name(identity.session_id.as_str())
        && snapshot.active && snapshot.creation_time_100ns == identity.creation_time_100ns
        && same_text_ignoring_case(
        snapshot.executable_path.as_str(),
        identity.executable_path.as_str(),
    )
}

/// The identity of this process, unless it is said not to run.
pub fn own_identity(pid: u32, session_id: SessionId, snapshot: WindowsProcessSnapshot) -> (identity:
    Option<DaemonIdentity>)
    ensures
        match identity {
            Some(identity) => {
                &&& snapshot.active
                &&& identity.role@ == DAEMON_ROLE@
                &&& identity.pid == pid
                &&& identity.creation_time_100ns == snapshot.creation_time_100ns
                &&& identity.session_id@ == crate::state::hex_text(session_id.0@)
                &&& identity.executable_path == snapshot.executable_path
            },
            None => !snapshot.active,
        },
{
    if !snapshot.active {
        return None;
    }
    Some(
        DaemonIdentity {
            role: DAEMON_ROLE.to_owned(),
            pid,
            creation_time_100ns: snapshot.creation_time_100ns,
            session_id: session_id.to_text(),
            executable_path: snapshot.executable_path,
        },
    )
}

/// The process that a text names, with white space around it at most.
pub open spec fn named_process(text: Seq<char>) -> Option<nat> {
    unsigned_value(trim(text), u32::MAX as nat)
}

/// Reads the number of a process.
pub fn parse_process(text: &str) -> (pid: Option<u32>)
    ensures
        match pid {
            Some(pid) => named_process(text@) == Some(pid as nat),
            None => named_process(text@) is None,
        },
{
    match parse_unsigned(trimmed(text).as_str(), u32::MAX as u64) {
        Some(pid) => Some(pid as u32),
        None => None,
    }
}

/// What the daemon left behind, as far as it could be read.
pub enum DaemonRecord {
    /// Nothing.
    Unavailable,
    /// The text of a file that holds the number of the process.
    Text(String),
    /// An identity, with the process of that number as it is now, if there is one.
    Identity { identity: DaemonIdentity, process: Option<WindowsProcessSnapshot> },
}

/// The number of the daemon's process that a record gives. An identity counts only if the process
/// is the one that left it.
pub open spec fn recorded_daemon(record: DaemonRecord) -> Option<nat> {
    match record {
        DaemonRecord::Unavailable => None,
        DaemonRecord::Text(text) => named_process(text@),
        DaemonRecord::Identity { identity, process } => match process {
            Some(process) if identifies(identity, process) => Some(identity.pid as nat),
            _ => None,
        },
    }
}

/// Finds the daemon's process.
pub fn read_daemon_pid(record: &DaemonRecord) -> (pid: Option<u32>)
    ensures
        match pid {
            Some(pid) => recorded_daemon(*record) == Some(pid as nat),
            None => recorded_daemon(*record) is None,
        },
{
    match record {
        DaemonRecord::Unavailable => None,
        DaemonRecord::Text(text) => parse_process(text.as_str()),
        DaemonRecord::Identity { identity, process } => {
            match process {
                Some(process) => {
                    if daemon_identity_matches(identity, process) {
                        Some(identity.pid)
                    } else {
                        None
                    }
                },
                None => None,
            }
        },
    }
}

/// The text by which the daemon leaves its process number.
pub fn daemon_pid_text(pid: u32) -> (text: String)
    ensures
        text@ == decimal_digits(pid as nat),
{
    format_unsigned(pid as u64)
}

/// Whether a process runs. No process has the number zero.
pub fn process_is_running(pid: u32, found_active: bool) -> (running: bool)
    ensures
        running == (pid != 0 && found_active),
{
    pid != 0 && found_active
}

/// Why a daemon was not ended.
#[derive(Clone, Copy, Debug, PartialEq, Eq, Structural)]
pub enum TerminationFailure {
    /// The daemon left nothing to be recognised by.
    IdentityUnavailable,
    /// The process is not the one that left the identity.
    IdentityMismatch,
    /// The command to end the process failed.
    CommandFailed,
    /// The process did not exit in time.
    TimedOut,
    /// The host reports an error of its own.
    HostError,
}

impl TerminationFailure {
    pub open spec fn message(self) -> Seq<char> {
        match self {
            TerminationFailure::IdentityUnavailable => "daemon identity is unavailable"@,
            TerminationFailure::IdentityMismatch =>
                "daemon identity no longer matches the live process"@,
            TerminationFailure::CommandFailed => "daemon termination command failed"@,
            TerminationFailure::TimedOut => "verified daemon did not exit before the deadline"@,
            TerminationFailure::HostError => "the host reports an error"@,
        }
    }

    pub fn as_str(self) -> (message: &'static str)
        ensures
            message@ == self.message(),
    {
        match self {
            TerminationFailure::IdentityUnavailable => "daemon identity is unavailable",
            TerminationFailure::IdentityMismatch =>
                "daemon identity no longer matches the live process",
            TerminationFailure::CommandFailed => "daemon termination command failed",
            TerminationFailure::TimedOut => "verified daemon did not exit before the deadline",
            TerminationFailure::HostError => "the host reports an error",
        }
    }
}

/// How the wait for the exit of a process ended.
#[derive(Clone, Copy, Debug, PartialEq, Eq, Structural)]
pub enum ExitWait {
    Exited,
    TimedOut,
    Failed,
}

/// Where the ending of a daemon stands.
pub enum TerminateStep {
    /// What the daemon left behind was read, and with an identity, its process was opened, if the
    /// host let it be opened.
    Recorded(DaemonRecord),
    /// The command to end the process was run.
    CommandRun { succeeded: bool },
    /// The process was ended by its handle.
    Ended { succeeded: bool },
    /// The exit of the process was waited for.
    Awaited(ExitWait),
}

/// What the ending of a daemon has to do next.
#[derive(Clone, Copy, Debug, PartialEq, Eq)]
pub enum TerminateAction {
    /// Run the command that asks this process to end.
    RunCommand(u32),
    /// End the process by the handle through which it was recognised.
    EndProcess,
    /// Wait for its exit, for so many milliseconds.
    AwaitExit(u32),
    Done(Result<(), TerminationFailure>),
}

/// The milliseconds of a span, as far as the host's wait takes them.
pub open spec fn wait_millis(span: int) -> u32 {
    if span / 1_000_000 > u32::MAX {
        u32::MAX
    } else {
        (span / 1_000_000) as u32
    }
}

/// The action that a step of the ending leads to.
pub open spec fn terminate_next(step: TerminateStep, timeout: int) -> TerminateAction {
    match step {
        TerminateStep::Recorded(record) => match record {
            DaemonRecord::Identity { identity, process } => if process is None {
                TerminateAction::Done(Err(TerminationFailure::HostError))
            } else if recorded_daemon(record) is Some {
                TerminateAction::EndProcess
            } else {
                TerminateAction::Done(Err(TerminationFailure::IdentityMismatch))
            },
            _ => match recorded_daemon(record) {
                Some(pid) => TerminateAction::RunCommand(pid as u32),
                None => TerminateAction::Done(Err(TerminationFailure::IdentityUnavailable)),
            },
        },
        TerminateStep::CommandRun { succeeded } => if succeeded {
            TerminateAction::Done(Ok(()))
        } else {
            TerminateAction::Done(Err(TerminationFailure::CommandFailed))
        },
        TerminateStep::Ended { succeeded } => if succeeded {
            TerminateAction::AwaitExit(wait_millis(timeout))
        } else {
            TerminateAction::Done(Err(TerminationFailure::HostError))
        },
        TerminateStep::Awaited(wait) => match wait {
            ExitWait::Exited => TerminateAction::Done(Ok(())),
            ExitWait::TimedOut => TerminateAction::Done(Err(TerminationFailure::TimedOut)),
            ExitWait::Failed => TerminateAction::Done(Err(TerminationFailure::HostError)),
        },
    }
}

/// Takes one step of ending the daemon. With an identity, a process is ended only if it is the one
/// that left the identity, and through the same handle by which it was recognised, so that a
/// number that was given to another process meanwhile does no harm.
pub fn terminate_daemon(step: &TerminateStep, timeout: Duration) -> (action: TerminateAction)
    ensures
        action == terminate_next(*step, timeout@),
{
    match step {
        TerminateStep::Recorded(record) => {
            let pid = read_daemon_pid(record);
            match record {
                DaemonRecord::Identity { identity: _, process } => {
                    if process.is_none() {
                        TerminateAction::Done(Err(TerminationFailure::HostError))
                    } else if pid.is_some() {
                        TerminateAction::EndProcess
                    } else {
                        TerminateAction::Done(Err(TerminationFailure::IdentityMismatch))
                    }
                },
                _ => match pid {
                    Some(pid) => TerminateAction::RunCommand(pid),
                    None => TerminateAction::Done(Err(TerminationFailure::IdentityUnavailable)),
                },
            }
        },
        TerminateStep::CommandRun { succeeded } => {
            if *succeeded {
                TerminateAction::Done(Ok(()))
            } else {
                TerminateAction::Done(Err(TerminationFailure::CommandFailed))
            }
        },
        TerminateStep::Ended { succeeded } => {
            if *succeeded {
                let millis = timeout.as_millis();
                TerminateAction::AwaitExit(
                    if millis > u32::MAX as u128 {
                        u32::MAX
                    } else {
                        millis as u32
                    },
                )
            } else {
                TerminateAction::Done(Err(TerminationFailure::HostError))
            }
        },
        TerminateStep::Awaited(wait) => match *wait {
            ExitWait::Exited => TerminateAction::Done(Ok(())),
            ExitWait::TimedOut => TerminateAction::Done(Err(TerminationFailure::TimedOut)),
            ExitWait::Failed => TerminateAction::Done(Err(TerminationFailure::HostError)),
        },
    }
}

/// A lock that names its owner, held while an operation runs.
#[derive(Debug)]
pub struct OperationGuard {
    /// The process that holds the lock.
    pub owner: u32,
}

/// How the creation of a lock file ended.
#[derive(Clone, Copy, Debug, PartialEq, Eq, Structural)]
pub enum LockCreation {
    Created,
    AlreadyExists,
    Failed,
}

/// Where the taking of a lock stands.
pub enum LockStep {
    Begin,
    /// The lock file was to be created; `again` says that a stale one was removed before.
    Tried { creation: LockCreation, again: bool },
    /// The lock file that was in the way was read, if it could be, and it was looked up whether the
    /// process that it names runs.
    OwnerRead { text: Option<String>, owner_running: bool },
    /// The stale lock file was to be removed.
    Removed { succeeded: bool },
}

/// What the taking of a lock has to do next.
#[derive(Clone, Copy, Debug, PartialEq, Eq, Structural)]
pub enum LockAction {
    /// Create the lock file, which must not exist.
    Create { again: bool },
    /// Read the lock file that is in the way.
    ReadOwner,
    /// Remove the lock file that is in the way.
    Remove,
    /// The lock is taken: write its owner into it.
    WriteOwner,
    /// Give up because somebody holds the lock.
    Held,
    /// Give up with the error that was met.
    Fail,
}

/// The lock is held: its file names a process that runs.
pub open spec fn lock_is_held(text: Option<String>, owner_running: bool) -> bool {
    text matches Some(text) && named_process(text@) is Some && owner_running
}

/// The action that a step of the taking of a lock leads to.
pub open spec fn lock_next(step: LockStep) -> LockAction {
    match step {
        LockStep::Begin => LockAction::Create { again: false },
        LockStep::Tried { creation, again } => match creation {
            LockCreation::Created => LockAction::WriteOwner,
            LockCreation::AlreadyExists => if again {
                LockAction::Fail
            } else {
                LockAction::ReadOwner
            },
            LockCreation::Failed => LockAction::Fail,
        },
        LockStep::OwnerRead { text, owner_running } => if lock_is_held(text, owner_running) {
            LockAction::Held
        } else {
            LockAction::Remove
        },
        LockStep::Removed { succeeded } => if succeeded {
            LockAction::Create { again: true }
        } else {
            LockAction::Fail
        },
    }
}

impl OperationGuard {
    /// Takes one step of taking a lock. A lock whose owner does not run any more is replaced, once.
    pub fn acquire(step: &LockStep) -> (action: LockAction)
        ensures
            action == lock_next(*step),
    {
        match step {
            LockStep::Begin => LockAction::Create { again: false },
            LockStep::Tried { creation, again } => match *creation {
                LockCreation::Created => LockAction::WriteOwner,
                LockCreation::AlreadyExists => {
                    if *again {
                        LockAction::Fail
                    } else {
                        LockAction::ReadOwner
                    }
                },
                LockCreation::Failed => LockAction::Fail,
            },
            LockStep::OwnerRead { text, owner_running } => {
                let named = match text {
                    Some(text) => parse_process(text.as_str()).is_some(),
                    None => false,
                };
                if named && *owner_running {
                    LockAction::Held
                } else {
                    LockAction::Remove
                }
            },
            LockStep::Removed { succeeded } => {
                if *succeeded {
                    LockAction::Create { again: true }
                } else {
                    LockAction::Fail
                }
            },
        }
    }

    /// The text of the lock file: the number of the owner on a line.
    pub fn text(&self) -> (text: String)
        ensures
            text@ == decimal_digits(self.owner as nat) + "\n"@,
    {
        let text = joined(format_unsigned(self.owner as u64).as_str(), "\n", "");
        proof {
            reveal_strlit("");
            assert(text@ =~= decimal_digits(self.owner as nat) + "\n"@);
        }
        text
    }
}

/// An identity that a running process left is recognised by that process, provided that its
/// session is not the zero session.
pub proof fn own_identity_is_recognised(
    identity: DaemonIdentity,
    session_id: SessionId,
    snapshot: WindowsProcessSnapshot,
)
    requires
        identity.role@ == DAEMON_ROLE@,
        identity.creation_time_100ns == snapshot.creation_time_100ns,
        identity.session_id@ == crate::state::hex_text(session_id.0@),
        identity.executable_path == snapshot.executable_path,
        snapshot.active,
    ensures
        identifies(identity, snapshot) == session_id.some_session(),
{
    crate::state::session_text_round_trip(session_id);
}

/// A process is ended by its handle only if it is the very process that left the identity: a
/// process that was given the same number later has another time of creation.
pub proof fn reused_number_is_not_ended(
    identity: DaemonIdentity,
    process: WindowsProcessSnapshot,
    timeout: int,
)
    requires
        process.creation_time_100ns != identity.creation_time_100ns || !process.active,
    ensures
        terminate_next(
            TerminateStep::Recorded(
                DaemonRecord::Identity { identity, process: Some(process) },
            ),
            timeout,
        ) == TerminateAction::Done(Err(TerminationFailure::IdentityMismatch)),
{
}

/// The number that a daemon leaves behind reads back.
pub proof fn left_number_reads_back(pid: u32)
    ensures
        named_process(decimal_digits(pid as nat)) == Some(pid as nat),
{
    crate::text::decimal_is_trimmed(pid as nat);
    crate::text::decimal_round_trip(pid as nat, u32::MAX as nat);
}

/// A lock file names its owner: while that process runs, nobody else takes the lock.
pub proof fn lock_names_its_owner(owner: u32, text: String, owner_running: bool)
    requires
        text@ == decimal_digits(owner as nat) + "\n"@,
    ensures
        named_process(text@) == Some(owner as nat),
        lock_next(LockStep::OwnerRead { text: Some(text), owner_running }) == if owner_running {
            LockAction::Held
        } else {
            LockAction::Remove
        },
{
    reveal_strlit("\n");
    let digits = decimal_digits(owner as nat);
    crate::text::decimal_is_trimmed(owner as nat);
    crate::text::decimal_round_trip(owner as nat, u32::MAX as nat);
    crate::text::decimal_line_is_trimmed(owner as nat, '\n');
    assert(text@ =~= digits.push('\n'));
}

/// A process is recognised as the daemon exactly when everything fits: the role, a session that is
/// not the zero session, that it runs, the time of its creation, and its executable up to the case
/// of letters. The number of the process plays no part in it.
pub proof fn daemon_is_recognised_by_all_signs(
    identity: DaemonIdentity,
    process: WindowsProcessSnapshot,
    renumbered: DaemonIdentity,
)
    requires
        renumbered == (DaemonIdentity { pid: renumbered.pid, ..identity }),
    ensures
        identifies(identity, process) <==> (identity.role@ == "gnirehtet-vd-daemon"@
            && names_session(identity.session_id@) && process.active && process.creation_time_100ns
            == identity.creation_time_100ns && lower(process.executable_path@) == lower(
            identity.executable_path@,
        )),
        identifies(renumbered, process) == identifies(identity, process),
{
}

/// Which process a record names: none when there is no record, the number in a text, and the number
/// of an identity only as long as its own process still runs.
pub proof fn record_names_a_process(
    text: String,
    identity: DaemonIdentity,
    process: WindowsProcessSnapshot,
    pid: nat,
)
    requires
        pid <= u32::MAX,
    ensures
        recorded_daemon(DaemonRecord::Unavailable) is None,
        trim(text@) == decimal_digits(pid) ==> recorded_daemon(DaemonRecord::Text(text)) == Some(
            pid,
        ),
        recorded_daemon(DaemonRecord::Text(text)) matches Some(named) ==> named <= u32::MAX,
        recorded_daemon(DaemonRecord::Identity { identity, process: None }) is None,
        recorded_daemon(DaemonRecord::Identity { identity, process: Some(process) }) == if identifies(
            identity,
            process,
        ) {
            Some(identity.pid as nat)
        } else {
            None
        },
        !process.active ==> recorded_daemon(
            DaemonRecord::Identity { identity, process: Some(process) },
        ) is None,
{
    crate::text::decimal_round_trip(pid, u32::MAX as nat);
}

/// How a daemon is ended. By an identity, its own process is ended and its exit is waited for; a
/// process that is not its own is left alone. By a text, the command is run for the number in it.
/// Without either, nothing is ended.
pub proof fn daemon_is_ended_by_its_record(
    identity: DaemonIdentity,
    process: WindowsProcessSnapshot,
    text: String,
    timeout: int,
)
    ensures
        ({
            let by_identity = terminate_next(
                TerminateStep::Recorded(
                    DaemonRecord::Identity { identity, process: Some(process) },
                ),
                timeout,
            );
            let unopened = terminate_next(
                TerminateStep::Recorded(DaemonRecord::Identity { identity, process: None }),
                timeout,
            );
            let by_text = terminate_next(
                TerminateStep::Recorded(DaemonRecord::Text(text)),
                timeout,
            );
            &&& by_identity == TerminateAction::EndProcess <==> identifies(identity, process)
            &&& by_identity == TerminateAction::Done(Err(TerminationFailure::IdentityMismatch))
                <==> !identifies(identity, process)
            &&& unopened == TerminateAction::Done(Err(TerminationFailure::HostError))
            &&& match named_process(text@) {
                Some(pid) => by_text == TerminateAction::RunCommand(pid as u32) && pid <= u32::MAX,
                None => by_text == TerminateAction::Done(
                    Err(TerminationFailure::IdentityUnavailable),
                ),
            }
            &&& terminate_next(
                TerminateStep::Recorded(DaemonRecord::Unavailable),
                timeout,
            ) == TerminateAction::Done(Err(TerminationFailure::IdentityUnavailable))
        }),
{
}

/// How the ending itself ends: well only when the command worked or the process exited. Its exit is
/// waited for only after it was ended, for the whole time, in milliseconds.
pub proof fn ending_ends(timeout: int, wait: ExitWait)
    requires
        timeout >= 0,
    ensures
        terminate_next(TerminateStep::CommandRun { succeeded: true }, timeout)
            == TerminateAction::Done(Ok(())),
        terminate_next(TerminateStep::CommandRun { succeeded: false }, timeout)
            == TerminateAction::Done(Err(TerminationFailure::CommandFailed)),
        terminate_next(TerminateStep::Ended { succeeded: false }, timeout) == TerminateAction::Done(
            Err(TerminationFailure::HostError),
        ),
        terminate_next(TerminateStep::Ended { succeeded: true }, timeout) matches
            TerminateAction::AwaitExit(millis) && (timeout < 0x1_0000_0000 * 1_000_000 ==> millis
            * 1_000_000 <= timeout < (millis + 1) * 1_000_000) && (timeout >= 0x1_0000_0000
            * 1_000_000 ==> millis == u32::MAX),
        terminate_next(TerminateStep::Awaited(wait), timeout) == TerminateAction::Done(Ok(()))
            <==> wait == ExitWait::Exited,
        terminate_next(TerminateStep::Awaited(wait), timeout) == TerminateAction::Done(
            Err(TerminationFailure::TimedOut),
        ) <==> wait == ExitWait::TimedOut,
        terminate_next(TerminateStep::Awaited(wait), timeout) == TerminateAction::Done(
            Err(TerminationFailure::HostError),
        ) <==> wait == ExitWait::Failed,
{
}

/// How a lock is taken. Its file is created; if there is one already, it is read, and it stands
/// exactly when it names a process that runs. Otherwise it is removed and created once more, and
/// only once.
pub proof fn lock_is_taken_from_the_dead(
    text: Option<String>,
    owner_running: bool,
    again: bool,
    succeeded: bool,
)
    ensures
        lock_next(LockStep::Begin) == (LockAction::Create { again: false }),
        lock_next(LockStep::Tried { creation: LockCreation::Created, again })
            == LockAction::WriteOwner,
        lock_next(LockStep::Tried { creation: LockCreation::Failed, again }) == LockAction::Fail,
        lock_next(LockStep::Tried { creation: LockCreation::AlreadyExists, again: false })
            == LockAction::ReadOwner,
        lock_next(LockStep::Tried { creation: LockCreation::AlreadyExists, again: true })
            == LockAction::Fail,
        lock_next(LockStep::OwnerRead { text, owner_running }) == LockAction::Held <==> (
        owner_running && (text matches Some(text) && unsigned_value(
            trim(text@),
            u32::MAX as nat,
        ) is Some)),
        lock_next(LockStep::OwnerRead { text, owner_running }) != LockAction::Held <==> lock_next(
            LockStep::OwnerRead { text, owner_running },
        ) == LockAction::Remove,
        lock_next(LockStep::Removed { succeeded }) == if succeeded {
            LockAction::Create { again: true }
        } else {
            LockAction::Fail
        },
{
}

/// A time in two halves: the high half counts the full turns of the low half.
pub proof fn halves_make_a_time(high: u32, low: u32)
    ensures
        whole_time(high, low) as int == high * 0x1_0000_0000 + low,
        whole_time(high, low) / 0x1_0000_0000 == high,
        whole_time(high, low) % 0x1_0000_0000 == low,
{
}

} // verus!

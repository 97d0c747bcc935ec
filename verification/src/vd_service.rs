//! The Virtual Desktop service on the host: the task through which it is restarted, and what the
//! host says of its processes.
use crate::text::{
    contains_text, decimal_digits, format_unsigned, joined, lower, lowercase, occurs, parse_unsigned,
    replace_char, replaced, same_text, trim, trimmed, unsigned_value,
};
use crate::time::{Duration, Instant};
use vstd::prelude::*;

verus! {

/// The name of the task that restarts the service.
pub const VIRTUAL_DESKTOP_RECOVERY_TASK: &'static str =
    "Quest VD Wired - Virtual Desktop Recovery";

/// The name of the service.
pub const VIRTUAL_DESKTOP_SERVICE_NAME: &'static str = "VirtualDesktop.Service.exe";

/// What the task runs, as arguments of the shell.
pub const VIRTUAL_DESKTOP_RECOVERY_ARGUMENTS: &'static str =
    "-NoProfile -NonInteractive -WindowStyle Hidden -Command \"$ErrorActionPreference='Stop';$session=(Get-Process -Id $PID).SessionId;$p=@(Get-Process -Name 'VirtualDesktop.Streamer' -ErrorAction SilentlyContinue|Where-Object {$_.SessionId -eq $session});if($p){$p|Stop-Process -Force};Restart-Service -Name VirtualDesktop.Service.exe -Force\"";

/// The script that registers the task, up to the arguments of the shell.
pub const REGISTRATION_HEAD: &'static str =
    "$ErrorActionPreference='Stop';$a=New-ScheduledTaskAction -Execute 'C:\\Windows\\System32\\WindowsPowerShell\\v1.0\\powershell.exe' -Argument '";

/// The script that registers the task, after the arguments of the shell.
pub const REGISTRATION_TAIL: &'static str =
    "';$p=New-ScheduledTaskPrincipal -UserId ([System.Security.Principal.WindowsIdentity]::GetCurrent().User.Value) -LogonType Interactive -RunLevel Highest;$s=New-ScheduledTaskSettingsSet -ExecutionTimeLimit (New-TimeSpan -Minutes 1) -AllowStartIfOnBatteries -DontStopIfGoingOnBatteries -MultipleInstances IgnoreNew;Register-ScheduledTask -TaskName 'Quest VD Wired - Virtual Desktop Recovery' -Action $a -Principal $p -Settings $s -Force | Out-Null";

/// The script that prints the process of the service, zero when the service does not run.
pub const SERVICE_QUERY: &'static str =
    "$s=Get-CimInstance Win32_Service -Filter \"Name='VirtualDesktop.Service.exe'\" -ErrorAction Stop;if($s.State -eq 'Running'){$s.ProcessId}else{0}";

/// The script that prints the process of the streamer in this session, zero when it does not run.
pub const STREAMER_QUERY: &'static str =
    "$session=(Get-Process -Id $PID).SessionId;$p=Get-Process -Name 'VirtualDesktop.Streamer' -ErrorAction SilentlyContinue|Where-Object {$_.SessionId -eq $session}|Select-Object -First 1;if($null -eq $p){0}else{$p.Id}";

/// The script that prints whether the streamer has its connections, up to its process.
pub const READINESS_HEAD: &'static str =
    "$c=@(Get-NetTCPConnection -OwningProcess ";

/// The script that prints whether the streamer has its connections, after its process.
pub const READINESS_TAIL: &'static str =
    " -State Established -ErrorAction SilentlyContinue);$cloud=@($c|Where-Object {$_.RemotePort -eq 443}).Count -gt 0;$broker=@($c|Where-Object {$_.RemotePort -ge 38810 -and $_.RemotePort -le 38820}).Count -gt 0;if($cloud -and $broker){1}else{0}";

/// The script that prints what the streamer listens on. It starts and stops nothing.
pub const STREAMER_PROBE: &'static str =
    "try {$p=Get-Process -Name 'VirtualDesktop.Streamer' -ErrorAction SilentlyContinue; if($null -eq $p){'NOT_RUNNING';exit}; $ids=@($p.Id); $tcp=@(Get-NetTCPConnection -State Listen -ErrorAction Stop | Where-Object {$ids -contains $_.OwningProcess}).Count; $udp=@(Get-NetUDPEndpoint -ErrorAction Stop | Where-Object {$ids -contains $_.OwningProcess}).Count; if(($tcp+$udp) -eq 0){'NOT_LISTENING'}else{'LISTENING '+$tcp+' '+$udp}} catch {'CHECK_FAILED'}";

/// Why the service could not be dealt with.
#[derive(Clone, Copy, Debug, PartialEq, Eq, Structural)]
pub enum ServiceFailure {
    RegistrationFailed,
    DefinitionMismatch,
    TaskUnavailable,
    ServiceQueryFailed,
    InvalidServiceProcess,
    StreamerQueryFailed,
    InvalidStreamerProcess,
    ReadinessQueryFailed,
    InvalidReadiness,
    TaskStartFailed,
    NotReady,
}

impl ServiceFailure {
    pub open spec fn message(self) -> Seq<char> {
        match self {
            ServiceFailure::RegistrationFailed => "registering the Virtual Desktop recovery task failed"@,
            ServiceFailure::DefinitionMismatch => "the Virtual Desktop recovery task did not match its fixed definition"@,
            ServiceFailure::TaskUnavailable => "the Virtual Desktop recovery task is unavailable"@,
            ServiceFailure::ServiceQueryFailed => "querying the Virtual Desktop service failed"@,
            ServiceFailure::InvalidServiceProcess => "Virtual Desktop service returned an invalid process ID"@,
            ServiceFailure::StreamerQueryFailed => "querying Virtual Desktop Streamer failed"@,
            ServiceFailure::InvalidStreamerProcess => "Virtual Desktop Streamer returned an invalid process ID"@,
            ServiceFailure::ReadinessQueryFailed => "querying Virtual Desktop Streamer readiness failed"@,
            ServiceFailure::InvalidReadiness => "Virtual Desktop Streamer returned invalid readiness"@,
            ServiceFailure::TaskStartFailed => "starting the Virtual Desktop recovery task failed"@,
            ServiceFailure::NotReady => "Virtual Desktop service and Streamer did not become ready"@,
        }
    }

    pub fn as_str(self) -> (message: &'static str)
        ensures
            message@ == self.message(),
    {
        match self {
            ServiceFailure::RegistrationFailed => "registering the Virtual Desktop recovery task failed",
            ServiceFailure::DefinitionMismatch => "the Virtual Desktop recovery task did not match its fixed definition",
            ServiceFailure::TaskUnavailable => "the Virtual Desktop recovery task is unavailable",
            ServiceFailure::ServiceQueryFailed => "querying the Virtual Desktop service failed",
            ServiceFailure::InvalidServiceProcess => "Virtual Desktop service returned an invalid process ID",
            ServiceFailure::StreamerQueryFailed => "querying Virtual Desktop Streamer failed",
            ServiceFailure::InvalidStreamerProcess => "Virtual Desktop Streamer returned an invalid process ID",
            ServiceFailure::ReadinessQueryFailed => "querying Virtual Desktop Streamer readiness failed",
            ServiceFailure::InvalidReadiness => "Virtual Desktop Streamer returned invalid readiness",
            ServiceFailure::TaskStartFailed => "starting the Virtual Desktop recovery task failed",
            ServiceFailure::NotReady => "Virtual Desktop service and Streamer did not become ready",
        }
    }
}

/// The definition of the task is the fixed one: it runs the fixed command with the fixed
/// arguments, at the highest level, for this user and in their session.
pub open spec fn defines_recovery_task(xml: Seq<char>, sid: Seq<char>) -> bool {
    let xml = lower(replace_char(xml, '\0', ""@));
    &&& occurs(xml, "<userid>"@ + lower(sid) + "</userid>"@)
    &&& occurs(xml, "<logontype>interactivetoken</logontype>"@)
    &&& occurs(xml, "<runlevel>highestavailable</runlevel>"@)
    &&& occurs(
        xml,
        "<command>c:\\windows\\system32\\windowspowershell\\v1.0\\powershell.exe</command>"@,
    )
    &&& occurs(
        xml,
        "<arguments>"@ + lower(VIRTUAL_DESKTOP_RECOVERY_ARGUMENTS@) + "</arguments>"@,
    )
}

/// Whether the task is there and is the fixed one. `xml` is its definition, which the host gave if
/// `queried` says so.
pub fn virtual_desktop_recovery_task_ready(queried: bool, xml: &str, sid: &str) -> (ready: bool)
    ensures
        ready == (queried && defines_recovery_task(xml@, sid@)),
{
    if !queried {
        return false;
    }
    let xml = lowercase(replaced(xml, '\0', "").as_str());
    let user = joined("<userid>", lowercase(sid).as_str(), "</userid>");
    let arguments = joined(
        "<arguments>",
        lowercase(VIRTUAL_DESKTOP_RECOVERY_ARGUMENTS).as_str(),
        "</arguments>",
    );
    contains_text(xml.as_str(), user.as_str()) && contains_text(
        xml.as_str(),
        "<logontype>interactivetoken</logontype>",
    ) && contains_text(xml.as_str(), "<runlevel>highestavailable</runlevel>") && contains_text(
        xml.as_str(),
        "<command>c:\\windows\\system32\\windowspowershell\\v1.0\\powershell.exe</command>",
    ) && contains_text(xml.as_str(), arguments.as_str())
}

/// Where the registration of the task stands.
#[derive(Clone, Copy, Debug, PartialEq, Eq, Structural)]
pub enum InstallStep {
    Begin,
    /// The script was run.
    Registered { succeeded: bool },
    /// It was looked up whether the task is the fixed one.
    Queried { ready: bool },
}

/// What the registration of the task has to do next.
#[derive(Debug)]
pub enum InstallAction {
    /// Run this script.
    Register(String),
    /// Look up whether the task is the fixed one.
    QueryTask,
    Done(Result<(), ServiceFailure>),
}

/// The script that registers the task. Quotes within the arguments are doubled, because the script
/// puts the arguments in quotes.
pub open spec fn registration_script() -> Seq<char> {
    REGISTRATION_HEAD@ + replace_char(VIRTUAL_DESKTOP_RECOVERY_ARGUMENTS@, '\'', "''"@)
        + REGISTRATION_TAIL@
}

/// Takes one step of registering the task.
pub fn install_virtual_desktop_recovery_task(step: InstallStep) -> (action: InstallAction)
    ensures
        match step {
            InstallStep::Begin => action matches InstallAction::Register(script) && script@
                == registration_script(),
            InstallStep::Registered { succeeded } => if succeeded {
                action == InstallAction::QueryTask
            } else {
                action == InstallAction::Done(Err(ServiceFailure::RegistrationFailed))
            },
            InstallStep::Queried { ready } => if ready {
                action == InstallAction::Done(Ok(()))
            } else {
                action == InstallAction::Done(Err(ServiceFailure::DefinitionMismatch))
            },
        },
{
    match step {
        InstallStep::Begin => {
            let arguments = replaced(VIRTUAL_DESKTOP_RECOVERY_ARGUMENTS, '\'', "''");
            InstallAction::Register(
                joined(REGISTRATION_HEAD, arguments.as_str(), REGISTRATION_TAIL),
            )
        },
        InstallStep::Registered { succeeded } => {
            if succeeded {
                InstallAction::QueryTask
            } else {
                InstallAction::Done(Err(ServiceFailure::RegistrationFailed))
            }
        },
        InstallStep::Queried { ready } => {
            if ready {
                InstallAction::Done(Ok(()))
            } else {
                InstallAction::Done(Err(ServiceFailure::DefinitionMismatch))
            }
        },
    }
}

/// The process number that a query printed.
pub open spec fn printed_process(output: Seq<char>) -> Option<nat> {
    unsigned_value(trim(output), u32::MAX as nat)
}

fn read_process(
    succeeded: bool,
    output: &str,
    failed: ServiceFailure,
    invalid: ServiceFailure,
) -> (pid: Result<u32, ServiceFailure>)
    ensures
        match pid {
            Ok(pid) => succeeded && printed_process(output@) == Some(pid as nat),
            Err(failure) => if succeeded {
                printed_process(output@) is None && failure == invalid
            } else {
                failure == failed
            },
        },
{
    if !succeeded {
        return Err(failed);
    }
    match parse_unsigned(trimmed(output).as_str(), u32::MAX as u64) {
        Some(pid) => Ok(pid as u32),
        None => Err(invalid),
    }
}

/// Reads what the query for the process of the service printed.
pub fn virtual_desktop_service_pid(succeeded: bool, output: &str) -> (pid: Result<
    u32,
    ServiceFailure,
>)
    ensures
        match pid {
            Ok(pid) => succeeded && printed_process(output@) == Some(pid as nat),
            Err(failure) => if succeeded {
                printed_process(output@) is None && failure == ServiceFailure::InvalidServiceProcess
            } else {
                failure == ServiceFailure::ServiceQueryFailed
            },
        },
{
    read_process(
        succeeded,
        output,
        ServiceFailure::ServiceQueryFailed,
        ServiceFailure::InvalidServiceProcess,
    )
}

/// Reads what the query for the process of the streamer printed.
pub fn virtual_desktop_streamer_pid(succeeded: bool, output: &str) -> (pid: Result<
    u32,
    ServiceFailure,
>)
    ensures
        match pid {
            Ok(pid) => succeeded && printed_process(output@) == Some(pid as nat),
            Err(failure) => if succeeded {
                printed_process(output@) is None && failure
                    == ServiceFailure::InvalidStreamerProcess
            } else {
                failure == ServiceFailure::StreamerQueryFailed
            },
        },
{
    read_process(
        succeeded,
        output,
        ServiceFailure::StreamerQueryFailed,
        ServiceFailure::InvalidStreamerProcess,
    )
}

/// The script that prints whether the streamer of this process has its connections.
pub fn streamer_readiness_query(pid: u32) -> (script: String)
    ensures
        script@ == READINESS_HEAD@ + decimal_digits(pid as nat) + READINESS_TAIL@,
{
    joined(READINESS_HEAD, format_unsigned(pid as u64).as_str(), READINESS_TAIL)
}

/// Reads what the query for the connections of the streamer printed.
pub fn virtual_desktop_streamer_cloud_ready(succeeded: bool, output: &str) -> (ready: Result<
    bool,
    ServiceFailure,
>)
    ensures
        ready == if !succeeded {
            Err::<bool, ServiceFailure>(ServiceFailure::ReadinessQueryFailed)
        } else if trim(output@) == "1"@ {
            Ok::<bool, ServiceFailure>(true)
        } else if trim(output@) == "0"@ {
            Ok::<bool, ServiceFailure>(false)
        } else {
            Err::<bool, ServiceFailure>(ServiceFailure::InvalidReadiness)
        },
{
    if !succeeded {
        return Err(ServiceFailure::ReadinessQueryFailed);
    }
    let text = trimmed(output);
    if same_text(text.as_str(), "1") {
        proof {
            reveal_strlit("1");
            reveal_strlit("0");
        }
        Ok(true)
    } else if same_text(text.as_str(), "0") {
        Ok(false)
    } else {
        Err(ServiceFailure::InvalidReadiness)
    }
}

/// How long the service and the streamer have to come back.
pub fn service_restart_timeout() -> (span: Duration)
    ensures
        span@ == 25_000_000_000,
{
    Duration::from_secs(25)
}

/// How long a service that came back is given to settle.
pub fn service_settle_delay() -> (span: Duration)
    ensures
        span@ == 5_000_000_000,
{
    Duration::from_secs(5)
}

/// How long to wait between two looks at the processes.
pub fn service_poll_delay() -> (span: Duration)
    ensures
        span@ == 250_000_000,
{
    Duration::from_millis(250)
}

/// The processes before the restart, zero where there was none.
#[derive(Clone, Copy, Debug, PartialEq, Eq, Structural)]
pub struct PreviousProcesses {
    pub service: u32,
    pub streamer: u32,
}

/// The wait for the processes to be replaced.
#[derive(Clone, Copy, Debug, PartialEq, Eq, Structural)]
pub struct ReplacementWait {
    pub previous: PreviousProcesses,
    pub started: Instant,
}

/// Where a restart of the service stands.
#[derive(Clone, Copy, Debug, PartialEq, Eq)]
pub enum RestartStep {
    /// On a host without the service there is nothing to do.
    Begin { windows: bool },
    TaskQueried { ready: bool },
    ServiceFound(Result<u32, ServiceFailure>),
    StreamerFound { service: u32, streamer: Result<u32, ServiceFailure> },
    TaskStarted { previous: PreviousProcesses, succeeded: bool, now: Instant },
    /// It is time to look at the processes.
    Waited { wait: ReplacementWait, now: Instant },
    ProcessesFound {
        wait: ReplacementWait,
        service_found: Result<u32, ServiceFailure>,
        streamer_found: Result<u32, ServiceFailure>,
    },
    ReadinessFound { wait: ReplacementWait, connected: Result<bool, ServiceFailure> },
    Settled,
}

/// What a restart of the service has to do next.
#[derive(Clone, Copy, Debug, PartialEq, Eq)]
pub enum RestartAction {
    /// Look up whether the task is the fixed one.
    QueryTask,
    FindService,
    FindStreamer { service: u32 },
    StartTask(PreviousProcesses),
    FindProcesses(ReplacementWait),
    /// Look up whether the streamer of this process has its connections.
    QueryReadiness { wait: ReplacementWait, streamer: u32 },
    /// Wait for the poll delay.
    Pause(ReplacementWait),
    /// Wait for the settle delay.
    Settle,
    Done(Result<(), ServiceFailure>),
}

/// The process, zero when it could not be found out.
pub open spec fn process_or_none(found: Result<u32, ServiceFailure>) -> u32 {
    match found {
        Ok(pid) => pid,
        Err(_) => 0,
    }
}

/// A process runs and is not the one from before.
pub open spec fn replaces(pid: u32, previous: u32) -> bool {
    pid != 0 && pid != previous
}

/// What follows when the time for looking at the processes has come.
pub open spec fn look_next(wait: ReplacementWait, now: Instant) -> RestartAction {
    if now@ - wait.started@ >= 25_000_000_000 {
        RestartAction::Done(Err(ServiceFailure::NotReady))
    } else {
        RestartAction::FindProcesses(wait)
    }
}

/// The action that a step of a restart leads to.
pub open spec fn restart_next(step: RestartStep) -> RestartAction {
    match step {
        RestartStep::Begin { windows } => if windows {
            RestartAction::QueryTask
        } else {
            RestartAction::Done(Ok(()))
        },
        RestartStep::TaskQueried { ready } => if ready {
            RestartAction::FindService
        } else {
            RestartAction::Done(Err(ServiceFailure::TaskUnavailable))
        },
        RestartStep::ServiceFound(service) => match service {
            Ok(service) => RestartAction::FindStreamer { service },
            Err(failure) => RestartAction::Done(Err(failure)),
        },
        RestartStep::StreamerFound { service, streamer } => match streamer {
            Ok(streamer) => RestartAction::StartTask(PreviousProcesses { service, streamer }),
            Err(failure) => RestartAction::Done(Err(failure)),
        },
        RestartStep::TaskStarted { previous, succeeded, now } => if succeeded {
            RestartAction::FindProcesses(ReplacementWait { previous, started: now })
        } else {
            RestartAction::Done(Err(ServiceFailure::TaskStartFailed))
        },
        RestartStep::Waited { wait, now } => look_next(wait, now),
        RestartStep::ProcessesFound { wait, service_found, streamer_found } => if replaces(
            process_or_none(service_found),
            wait.previous.service,
        ) && replaces(process_or_none(streamer_found), wait.previous.streamer) {
            RestartAction::QueryReadiness { wait, streamer: process_or_none(streamer_found) }
        } else {
            RestartAction::Pause(wait)
        },
        RestartStep::ReadinessFound { wait, connected } => if connected == Ok::<
            bool,
            ServiceFailure,
        >(true) {
            RestartAction::Settle
        } else {
            RestartAction::Pause(wait)
        },
        RestartStep::Settled => RestartAction::Done(Ok(())),
    }
}

fn known_process(found: Result<u32, ServiceFailure>) -> (pid: u32)
    ensures
        pid == process_or_none(found),
{
    match found {
        Ok(pid) => pid,
        Err(_) => 0,
    }
}

/// Takes one step of restarting the service through the task.
pub fn restart_virtual_desktop_service(step: RestartStep) -> (action: RestartAction)
    ensures
        action == restart_next(step),
{
    match step {
        RestartStep::Begin { windows } => {
            if windows {
                RestartAction::QueryTask
            } else {
                RestartAction::Done(Ok(()))
            }
        },
        RestartStep::TaskQueried { ready } => {
            if ready {
                RestartAction::FindService
            } else {
                RestartAction::Done(Err(ServiceFailure::TaskUnavailable))
            }
        },
        RestartStep::ServiceFound(service) => match service {
            Ok(service) => RestartAction::FindStreamer { service },
            Err(failure) => RestartAction::Done(Err(failure)),
        },
        RestartStep::StreamerFound { service, streamer } => match streamer {
            Ok(streamer) => RestartAction::StartTask(PreviousProcesses { service, streamer }),
            Err(failure) => RestartAction::Done(Err(failure)),
        },
        RestartStep::TaskStarted { previous, succeeded, now } => {
            if succeeded {
                RestartAction::FindProcesses(ReplacementWait { previous, started: now })
            } else {
                RestartAction::Done(Err(ServiceFailure::TaskStartFailed))
            }
        },
        RestartStep::Waited { wait, now } => {
            if now.duration_since(wait.started).at_least(service_restart_timeout()) {
                RestartAction::Done(Err(ServiceFailure::NotReady))
            } else {
                RestartAction::FindProcesses(wait)
            }
        },
        RestartStep::ProcessesFound { wait, service_found, streamer_found } => {
            let service = known_process(service_found);
            let streamer = known_process(streamer_found);
            let previous = wait.previous;
            if service != 0 && (previous.service == 0 || service != previous.service) && streamer
                != 0 && (previous.streamer == 0 || streamer != previous.streamer) {
                RestartAction::QueryReadiness { wait, streamer }
            } else {
                RestartAction::Pause(wait)
            }
        },
        RestartStep::ReadinessFound { wait, connected } => {
            let ready = match connected {
                Ok(ready) => ready,
                Err(_) => false,
            };
            if ready {
                RestartAction::Settle
            } else {
                RestartAction::Pause(wait)
            }
        },
        RestartStep::Settled => RestartAction::Done(Ok(())),
    }
}

/// A definition that lacks any part of the fixed one is not taken for it; in particular one for
/// another user is not.
pub proof fn task_of_another_user_is_not_ready(xml: Seq<char>, sid: Seq<char>)
    requires
        !occurs(lower(replace_char(xml, '\0', ""@)), "<userid>"@ + lower(sid) + "</userid>"@),
    ensures
        !defines_recovery_task(xml, sid),
{
}

/// The connections of the streamer are asked for only once both processes were replaced, and the
/// restart is taken to have worked only once the streamer has them.
pub proof fn restart_needs_new_processes(step: RestartStep, wait: ReplacementWait, streamer: u32)
    ensures
        restart_next(step) == (RestartAction::QueryReadiness { wait, streamer }) ==> (step matches
            RestartStep::ProcessesFound { wait: from, service_found, streamer_found } && from == wait
            && streamer_found == Ok::<u32, ServiceFailure>(streamer) && streamer != 0 && streamer
            != wait.previous.streamer && (service_found matches Ok(service) && service != 0
            && service != wait.previous.service)),
        restart_next(step) == RestartAction::Settle ==> (step matches
            RestartStep::ReadinessFound { wait: _, connected } && connected == Ok::<bool, ServiceFailure>(
            true,
        )),
{
}

/// Looking at the processes ends: once the time is over, a look is refused.
pub proof fn restart_gives_up_in_time(wait: ReplacementWait, now: Instant)
    requires
        now@ - wait.started@ >= 25_000_000_000,
    ensures
        restart_next(RestartStep::Waited { wait, now }) == RestartAction::Done(
            Err(ServiceFailure::NotReady),
        ),
{
}

/// A definition is the fixed one exactly when it holds every part of it: the user, the logon, the
/// level, the command and the arguments, whatever the case of letters and with zero characters left
/// out.
pub proof fn fixed_task_holds_every_part(xml: Seq<char>, sid: Seq<char>)
    ensures
        ({
            let seen = lower(replace_char(xml, '\0', ""@));
            defines_recovery_task(xml, sid) <==> {
                &&& occurs(seen, "<userid>"@ + lower(sid) + "</userid>"@)
                &&& occurs(seen, "<logontype>interactivetoken</logontype>"@)
                &&& occurs(seen, "<runlevel>highestavailable</runlevel>"@)
                &&& occurs(
                    seen,
                    "<command>c:\\windows\\system32\\windowspowershell\\v1.0\\powershell.exe</command>"@,
                )
                &&& occurs(
                    seen,
                    "<arguments>"@ + lower(VIRTUAL_DESKTOP_RECOVERY_ARGUMENTS@) + "</arguments>"@,
                )
            }
        }),
{
}

/// A restart gets as far as starting the task only on a host that has it, with the task in place and
/// the processes from before known; it remembers those, and the time of the start.
pub proof fn task_is_started_for_known_processes(
    service: u32,
    streamer: u32,
    failure: ServiceFailure,
    now: Instant,
)
    ensures
        restart_next(RestartStep::Begin { windows: true }) == RestartAction::QueryTask,
        restart_next(RestartStep::Begin { windows: false }) == RestartAction::Done(Ok(())),
        restart_next(RestartStep::TaskQueried { ready: true }) == RestartAction::FindService,
        restart_next(RestartStep::TaskQueried { ready: false }) == RestartAction::Done(
            Err(ServiceFailure::TaskUnavailable),
        ),
        restart_next(RestartStep::ServiceFound(Ok(service))) == (RestartAction::FindStreamer {
            service,
        }),
        restart_next(RestartStep::ServiceFound(Err(failure))) == RestartAction::Done(Err(failure)),
        restart_next(RestartStep::StreamerFound { service, streamer: Ok(streamer) })
            == RestartAction::StartTask(PreviousProcesses { service, streamer }),
        restart_next(RestartStep::StreamerFound { service, streamer: Err(failure) })
            == RestartAction::Done(Err(failure)),
        restart_next(
            RestartStep::TaskStarted {
                previous: PreviousProcesses { service, streamer },
                succeeded: true,
                now,
            },
        ) == RestartAction::FindProcesses(
            ReplacementWait { previous: PreviousProcesses { service, streamer }, started: now },
        ),
        restart_next(
            RestartStep::TaskStarted {
                previous: PreviousProcesses { service, streamer },
                succeeded: false,
                now,
            },
        ) == RestartAction::Done(Err(ServiceFailure::TaskStartFailed)),
{
}

/// The wait goes on until both processes run anew and the streamer has its connections: exactly then
/// the restart worked, after a pause. Until the time is over the processes are looked at again and
/// again.
pub proof fn restart_waits_for_both_processes(
    wait: ReplacementWait,
    service_found: Result<u32, ServiceFailure>,
    streamer_found: Result<u32, ServiceFailure>,
    connected: Result<bool, ServiceFailure>,
    now: Instant,
)
    ensures
        ({
            let found = restart_next(
                RestartStep::ProcessesFound { wait, service_found, streamer_found },
            );
            let asked = restart_next(RestartStep::ReadinessFound { wait, connected });
            let service_is_new = service_found matches Ok(pid) && pid != 0 && pid
                != wait.previous.service;
            let streamer_is_new = streamer_found matches Ok(pid) && pid != 0 && pid
                != wait.previous.streamer;
            &&& found is QueryReadiness <==> service_is_new && streamer_is_new
            &&& found == RestartAction::Pause(wait) <==> !(service_is_new && streamer_is_new)
            &&& found matches RestartAction::QueryReadiness { wait: kept, streamer } ==> kept == wait
                && streamer_found == Ok::<u32, ServiceFailure>(streamer)
            &&& asked == RestartAction::Settle <==> (connected matches Ok(ready) && ready)
            &&& asked == RestartAction::Pause(wait) <==> !(connected matches Ok(ready) && ready)
            &&& restart_next(RestartStep::Settled) == RestartAction::Done(Ok(()))
            &&& restart_next(RestartStep::Waited { wait, now }) == RestartAction::FindProcesses(wait)
                <==> now@ - wait.started@ < 25_000_000_000
        }),
{
}

/// What a query for a process printed: a number, with whitespace around it at most, and no larger
/// than a process can have.
pub proof fn printed_process_is_a_number(output: Seq<char>, pid: nat)
    requires
        pid <= u32::MAX,
        trim(output) == decimal_digits(pid),
    ensures
        printed_process(output) == Some(pid),
{
    crate::text::decimal_round_trip(pid, u32::MAX as nat);
}

} // verus!

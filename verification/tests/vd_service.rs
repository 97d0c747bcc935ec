use gnirehtet_vd::time::{Duration, Instant};
use gnirehtet_vd::vd_service::{
    install_virtual_desktop_recovery_task, restart_virtual_desktop_service, service_poll_delay,
    service_settle_delay, streamer_readiness_query, virtual_desktop_recovery_task_ready,
    virtual_desktop_service_pid, virtual_desktop_streamer_cloud_ready,
    virtual_desktop_streamer_pid, InstallAction, InstallStep, PreviousProcesses, ReplacementWait,
    RestartAction, RestartStep, ServiceFailure, VIRTUAL_DESKTOP_RECOVERY_ARGUMENTS,
    VIRTUAL_DESKTOP_RECOVERY_TASK, VIRTUAL_DESKTOP_SERVICE_NAME,
};

fn definition(sid: &str) -> String {
    format!(
        "<Task><UserId>{sid}</UserId><LogonType>InteractiveToken</LogonType>\
         <RunLevel>HighestAvailable</RunLevel>\
         <Command>C:\\Windows\\System32\\WindowsPowerShell\\v1.0\\powershell.exe</Command>\
         <Arguments>{VIRTUAL_DESKTOP_RECOVERY_ARGUMENTS}</Arguments></Task>"
    )
}

#[test]
fn the_fixed_definition_is_recognised() {
    let xml = definition("S-1-5-21");
    assert!(virtual_desktop_recovery_task_ready(true, &xml, "s-1-5-21"));
    assert!(!virtual_desktop_recovery_task_ready(false, &xml, "S-1-5-21"));
    assert!(!virtual_desktop_recovery_task_ready(true, &xml, "S-1-5-22"));
    let mut wide = String::new();
    for c in xml.chars() {
        wide.push(c);
        wide.push('\0');
    }
    assert!(virtual_desktop_recovery_task_ready(true, &wide, "S-1-5-21"));
}

#[test]
fn a_definition_with_a_part_missing_is_not_recognised() {
    let xml = definition("S-1");
    for part in ["InteractiveToken", "HighestAvailable", "powershell.exe", "Restart-Service"] {
        let changed = xml.replace(part, "");
        assert!(!virtual_desktop_recovery_task_ready(true, &changed, "S-1"));
    }
}

#[test]
fn the_task_is_registered_and_looked_up() {
    match install_virtual_desktop_recovery_task(InstallStep::Begin) {
        InstallAction::Register(script) => {
            assert!(script.starts_with("$ErrorActionPreference='Stop';$a=New-ScheduledTaskAction"));
            assert!(script.contains("-Argument '-NoProfile"));
            assert!(script.contains("$ErrorActionPreference=''Stop''"));
            assert!(script.contains(VIRTUAL_DESKTOP_RECOVERY_TASK));
            assert!(script.ends_with("-Force | Out-Null"));
        }
        _ => panic!("the task was to be registered"),
    }
    assert!(matches!(
        install_virtual_desktop_recovery_task(InstallStep::Registered { succeeded: true }),
        InstallAction::QueryTask
    ));
    assert!(matches!(
        install_virtual_desktop_recovery_task(InstallStep::Registered { succeeded: false }),
        InstallAction::Done(Err(ServiceFailure::RegistrationFailed))
    ));
    assert!(matches!(
        install_virtual_desktop_recovery_task(InstallStep::Queried { ready: true }),
        InstallAction::Done(Ok(()))
    ));
    assert!(matches!(
        install_virtual_desktop_recovery_task(InstallStep::Queried { ready: false }),
        InstallAction::Done(Err(ServiceFailure::DefinitionMismatch))
    ));
}

#[test]
fn the_queries_are_read() {
    assert_eq!(virtual_desktop_service_pid(true, "1234\r\n"), Ok(1234));
    assert_eq!(
        virtual_desktop_service_pid(true, "none"),
        Err(ServiceFailure::InvalidServiceProcess)
    );
    assert_eq!(
        virtual_desktop_service_pid(false, "1"),
        Err(ServiceFailure::ServiceQueryFailed)
    );
    assert_eq!(virtual_desktop_streamer_pid(true, "0"), Ok(0));
    assert_eq!(
        virtual_desktop_streamer_pid(true, ""),
        Err(ServiceFailure::InvalidStreamerProcess)
    );
    assert_eq!(
        virtual_desktop_streamer_pid(false, ""),
        Err(ServiceFailure::StreamerQueryFailed)
    );
    assert_eq!(virtual_desktop_streamer_cloud_ready(true, " 1\n"), Ok(true));
    assert_eq!(virtual_desktop_streamer_cloud_ready(true, "0"), Ok(false));
    assert_eq!(
        virtual_desktop_streamer_cloud_ready(true, "2"),
        Err(ServiceFailure::InvalidReadiness)
    );
    assert_eq!(
        virtual_desktop_streamer_cloud_ready(false, "1"),
        Err(ServiceFailure::ReadinessQueryFailed)
    );
    assert!(streamer_readiness_query(77).contains("-OwningProcess 77 -State Established"));
    assert_eq!(VIRTUAL_DESKTOP_SERVICE_NAME, "VirtualDesktop.Service.exe");
}

fn at(secs: u64) -> Instant {
    Instant { since_start: Duration::from_secs(secs) }
}

#[test]
fn a_restart_waits_for_both_processes_to_be_replaced() {
    let previous = PreviousProcesses { service: 10, streamer: 0 };
    let wait = ReplacementWait { previous, started: at(100) };
    let steps = [
        (RestartStep::Begin { windows: false }, RestartAction::Done(Ok(()))),
        (RestartStep::Begin { windows: true }, RestartAction::QueryTask),
        (
            RestartStep::TaskQueried { ready: false },
            RestartAction::Done(Err(ServiceFailure::TaskUnavailable)),
        ),
        (RestartStep::TaskQueried { ready: true }, RestartAction::FindService),
        (RestartStep::ServiceFound(Ok(10)), RestartAction::FindStreamer { service: 10 }),
        (
            RestartStep::ServiceFound(Err(ServiceFailure::ServiceQueryFailed)),
            RestartAction::Done(Err(ServiceFailure::ServiceQueryFailed)),
        ),
        (
            RestartStep::StreamerFound { service: 10, streamer: Ok(0) },
            RestartAction::StartTask(previous),
        ),
        (
            RestartStep::StreamerFound {
                service: 10,
                streamer: Err(ServiceFailure::StreamerQueryFailed),
            },
            RestartAction::Done(Err(ServiceFailure::StreamerQueryFailed)),
        ),
        (
            RestartStep::TaskStarted { previous, succeeded: false, now: at(100) },
            RestartAction::Done(Err(ServiceFailure::TaskStartFailed)),
        ),
        (
            RestartStep::TaskStarted { previous, succeeded: true, now: at(100) },
            RestartAction::FindProcesses(wait),
        ),
        (
            RestartStep::ProcessesFound { wait, service_found: Ok(10), streamer_found: Ok(5) },
            RestartAction::Pause(wait),
        ),
        (
            RestartStep::ProcessesFound {
                wait,
                service_found: Err(ServiceFailure::ServiceQueryFailed),
                streamer_found: Ok(5),
            },
            RestartAction::Pause(wait),
        ),
        (
            RestartStep::ProcessesFound { wait, service_found: Ok(11), streamer_found: Ok(0) },
            RestartAction::Pause(wait),
        ),
        (
            RestartStep::ProcessesFound { wait, service_found: Ok(11), streamer_found: Ok(5) },
            RestartAction::QueryReadiness { wait, streamer: 5 },
        ),
        (
            RestartStep::ReadinessFound { wait, connected: Ok(false) },
            RestartAction::Pause(wait),
        ),
        (
            RestartStep::ReadinessFound {
                wait,
                connected: Err(ServiceFailure::InvalidReadiness),
            },
            RestartAction::Pause(wait),
        ),
        (RestartStep::ReadinessFound { wait, connected: Ok(true) }, RestartAction::Settle),
        (RestartStep::Settled, RestartAction::Done(Ok(()))),
        (RestartStep::Waited { wait, now: at(124) }, RestartAction::FindProcesses(wait)),
        (
            RestartStep::Waited { wait, now: at(125) },
            RestartAction::Done(Err(ServiceFailure::NotReady)),
        ),
    ];
    for (step, action) in steps {
        assert_eq!(restart_virtual_desktop_service(step), action);
    }
    assert_eq!(service_poll_delay(), Duration::from_millis(250));
    assert_eq!(service_settle_delay(), Duration::from_secs(5));
}

#[test]
fn messages_of_service_failures() {
    let messages = [
        (
            ServiceFailure::RegistrationFailed,
            "registering the Virtual Desktop recovery task failed",
        ),
        (
            ServiceFailure::DefinitionMismatch,
            "the Virtual Desktop recovery task did not match its fixed definition",
        ),
        (
            ServiceFailure::TaskUnavailable,
            "the Virtual Desktop recovery task is unavailable",
        ),
        (
            ServiceFailure::InvalidServiceProcess,
            "Virtual Desktop service returned an invalid process ID",
        ),
        (
            ServiceFailure::NotReady,
            "Virtual Desktop service and Streamer did not become ready",
        ),
    ];
    for (failure, message) in messages {
        assert_eq!(failure.as_str(), message);
    }
}

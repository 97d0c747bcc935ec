//! The admin endpoint: its messages, who may use it, and what its commands do.
use crate::monitor::{
    internal, lemma_no_event, lemma_one_event, text_model, AdbHealthMonitor, MonitorEvent,
    MonitorModel,
};
use crate::runtime::RuntimeError;
use crate::state::{
    is_session_name, names_session, HostState, SessionId, StateSnapshot,
    TRANSPORT_RECOVERY_REASON,
};
use crate::text::{same_text, trim, trimmed};
use crate::time::{Duration, Instant};
use vstd::prelude::*;
use vstd::string::*;
use vstd::utf8::*;

verus! {

/// How many bytes a message has at most.
pub const MAX_ADMIN_MESSAGE: usize = 4 * 1024;

/// How many connections are served at a time.
pub const MAX_ADMIN_CONNECTIONS: usize = 8;

/// How long a message may take to be read or written.
pub fn admin_io_timeout() -> (span: Duration)
    ensures
        span@ == 3_000_000_000,
{
    Duration::from_secs(3)
}

/// How long the device is given to stop.
pub fn stop_timeout() -> (span: Duration)
    ensures
        span@ == 6_000_000_000,
{
    Duration::from_secs(6)
}

/// The byte at `at`, zero beyond the end.
pub open spec fn padded(bytes: Seq<u8>, at: int) -> u8 {
    if at < bytes.len() {
        bytes[at]
    } else {
        0
    }
}

fn byte_or_zero(bytes: &[u8], at: usize) -> (byte: u8)
    ensures
        byte == padded(bytes@, at as int),
{
    if at < bytes.len() {
        bytes[at]
    } else {
        0
    }
}

/// Whether two byte strings are the same. The time that it takes depends on their lengths only,
/// not on where they differ.
pub fn constant_time_eq(left: &[u8], right: &[u8]) -> (same: bool)
    ensures
        same == (left@ == right@),
{
    let left_length = left.len();
    let right_length = right.len();
    let length = if left_length >= right_length {
        left_length
    } else {
        right_length
    };
    let mut difference: usize = left_length ^ right_length;
    assert(difference == 0 <==> left_length == right_length) by (bit_vector)
        requires
            difference == left_length ^ right_length,
    ;
    let mut at: usize = 0;
    while at < length
        invariant
            at <= length,
            left_length <= length,
            right_length <= length,
            left_length == left@.len(),
            right_length == right@.len(),
            difference == 0 <==> left_length == right_length && forall|i: int|
                0 <= i < at ==> padded(left@, i) == padded(right@, i),
        decreases length - at,
    {
        let a = byte_or_zero(left, at);
        let b = byte_or_zero(right, at);
        let mixed = (a ^ b) as usize;
        assert(a ^ b == 0 <==> a == b) by (bit_vector);
        let next = difference | mixed;
        assert(next == 0 <==> difference == 0 && mixed == 0) by (bit_vector)
            requires
                next == difference | mixed,
        ;
        difference = next;
        at = at + 1;
    }
    proof {
        if difference == 0 {
            assert forall|i: int| 0 <= i < left@.len() implies left@[i] == right@[i] by {
                assert(padded(left@, i) == padded(right@, i));
            }
            assert(left@ =~= right@);
        }
    }
    difference == 0
}

/// A request to the endpoint.
#[derive(Debug)]
pub struct AdminRequest {
    pub token: String,
    pub command: String,
}

/// The answer to a request.
#[derive(Debug)]
pub struct AdminResponse {
    pub ok: bool,
    pub repairs_suppressed: bool,
    pub error: Option<String>,
    pub status: Option<StateSnapshot>,
}

/// The mathematical model of an [`AdminResponse`].
pub struct ResponseModel {
    pub ok: bool,
    pub repairs_suppressed: bool,
    pub error: Option<Seq<char>>,
    pub status: Option<StateSnapshot>,
}

impl View for AdminResponse {
    type V = ResponseModel;

    open spec fn view(&self) -> ResponseModel {
        ResponseModel {
            ok: self.ok,
            repairs_suppressed: self.repairs_suppressed,
            error: text_model(self.error),
            status: self.status,
        }
    }
}

/// A command that needs to know the lifecycle.
#[derive(Clone, Copy, Debug, PartialEq, Eq, Structural)]
pub enum AdminQuery {
    HostResume,
    Status,
    Shutdown,
}

/// Where the handling of a request stands.
pub enum AdminStep {
    Received(AdminRequest),
    LifecycleKnown { query: AdminQuery, status: StateSnapshot },
    TransportReset(StateSnapshot),
    /// The device was told to stop; with an error if it did not.
    StopRequested(Option<String>),
    RepairsDrained { error: Option<String>, status: StateSnapshot },
}

/// What the handling of a request has to do next.
pub enum AdminAction {
    /// Find out the lifecycle.
    QueryLifecycle(AdminQuery),
    /// Drop the control connection because the transport is rebuilt.
    ResetTransport(&'static str),
    /// Tell the device to stop.
    RequestStop,
    /// Wait for the command to the device that may be running to end.
    DrainRepairs(Option<String>),
    /// Send the answer. The runtime shuts down afterwards if `shutdown` says so.
    Respond { response: AdminResponse, shutdown: bool },
}

/// The mathematical model of an [`AdminAction`].
pub enum ActionModel {
    QueryLifecycle(AdminQuery),
    ResetTransport(Seq<char>),
    RequestStop,
    DrainRepairs(Option<Seq<char>>),
    Respond { response: ResponseModel, shutdown: bool },
}

impl View for AdminAction {
    type V = ActionModel;

    open spec fn view(&self) -> ActionModel {
        match *self {
            AdminAction::QueryLifecycle(query) => ActionModel::QueryLifecycle(query),
            AdminAction::ResetTransport(reason) => ActionModel::ResetTransport(reason@),
            AdminAction::RequestStop => ActionModel::RequestStop,
            AdminAction::DrainRepairs(error) => ActionModel::DrainRepairs(text_model(error)),
            AdminAction::Respond { response, shutdown } => ActionModel::Respond {
                response: response@,
                shutdown,
            },
        }
    }
}

/// An answer that a request was not served.
pub open spec fn refusal(error: Seq<char>) -> ActionModel {
    ActionModel::Respond {
        response: ResponseModel {
            ok: false,
            repairs_suppressed: false,
            error: Some(error),
            status: None,
        },
        shutdown: false,
    }
}

/// An answer that a request was served.
pub open spec fn served(status: StateSnapshot) -> ActionModel {
    ActionModel::Respond {
        response: ResponseModel {
            ok: true,
            repairs_suppressed: false,
            error: None,
            status: Some(status),
        },
        shutdown: false,
    }
}

/// The monitor and the action that a step of the handling of a request leads to, at an endpoint
/// with this token.
pub open spec fn admin_next(token: Seq<char>, monitor: MonitorModel, step: AdminStep) -> (
    MonitorModel,
    ActionModel,
) {
    match step {
        AdminStep::Received(request) => if request.token@ != token {
            (monitor, refusal("authentication failed"@))
        } else if request.command@ == "host_resume"@ {
            (monitor, ActionModel::QueryLifecycle(AdminQuery::HostResume))
        } else if request.command@ == "stop"@ {
            (monitor.suppressed(), ActionModel::RequestStop)
        } else if request.command@ == "status"@ {
            (monitor, ActionModel::QueryLifecycle(AdminQuery::Status))
        } else if request.command@ == "shutdown"@ {
            (monitor, ActionModel::QueryLifecycle(AdminQuery::Shutdown))
        } else {
            (monitor, refusal("unknown command"@))
        },
        AdminStep::LifecycleKnown { query, status } => match query {
            AdminQuery::HostResume => if status.state.active() {
                (
                    monitor.host_resumed(),
                    ActionModel::ResetTransport(TRANSPORT_RECOVERY_REASON@),
                )
            } else {
                (monitor, served(status))
            },
            AdminQuery::Status => (monitor, served(status)),
            AdminQuery::Shutdown => {
                let stopped = status.state == HostState::Stopped;
                (
                    monitor,
                    ActionModel::Respond {
                        response: ResponseModel {
                            ok: stopped,
                            repairs_suppressed: monitor.stopping,
                            error: if stopped {
                                None
                            } else {
                                Some("daemon shutdown requires stopped state"@)
                            },
                            status: Some(status),
                        },
                        shutdown: stopped,
                    },
                )
            },
        },
        AdminStep::TransportReset(status) => (monitor, served(status)),
        AdminStep::StopRequested(error) => (monitor, ActionModel::DrainRepairs(text_model(error))),
        AdminStep::RepairsDrained { error, status } => (
            monitor,
            ActionModel::Respond {
                response: ResponseModel {
                    ok: error is None,
                    repairs_suppressed: true,
                    error: text_model(error),
                    status: Some(status),
                },
                shutdown: false,
            },
        ),
    }
}

/// The admin endpoint of one user.
#[derive(Debug)]
pub struct AdminServer {
    pub token: String,
    pub max_connections: usize,
    pub io_timeout: Duration,
}

impl AdminServer {
    pub fn new(token: String) -> (server: AdminServer)
        ensures
            server.token == token,
            server.max_connections == MAX_ADMIN_CONNECTIONS,
            server.io_timeout@ == 3_000_000_000,
    {
        AdminServer {
            token,
            max_connections: MAX_ADMIN_CONNECTIONS,
            io_timeout: admin_io_timeout(),
        }
    }

    /// The endpoint with limits of its own.
    pub fn with_limits(self, max_connections: usize, io_timeout: Duration) -> (server: AdminServer)
        ensures
            server == (AdminServer { token: self.token, max_connections, io_timeout }),
    {
        AdminServer { token: self.token, max_connections, io_timeout }
    }

    /// Whether one more connection is taken on while `active` ones are served.
    pub fn admits(&self, active: usize) -> (result: bool)
        ensures
            result == (active < self.max_connections),
    {
        active < self.max_connections
    }

    fn authenticates(&self, request: &AdminRequest) -> (result: bool)
        ensures
            result == (request.token@ == self.token@),
    {
        proof {
            encode_utf8_decode_utf8(request.token@);
            encode_utf8_decode_utf8(self.token@);
        }
        constant_time_eq(request.token.as_str().as_bytes(), self.token.as_str().as_bytes())
    }

    fn refuse(error: &str) -> (action: AdminAction)
        ensures
            action@ == refusal(error@),
    {
        AdminAction::Respond {
            response: AdminResponse {
                ok: false,
                repairs_suppressed: false,
                error: Some(error.to_owned()),
                status: None,
            },
            shutdown: false,
        }
    }

    fn serve_status(status: StateSnapshot) -> (action: AdminAction)
        ensures
            action@ == served(status),
    {
        AdminAction::Respond {
            response: AdminResponse {
                ok: true,
                repairs_suppressed: false,
                error: None,
                status: Some(status),
            },
            shutdown: false,
        }
    }

    /// Takes one step of handling a request.
    pub fn handle(&self, monitor: &mut AdbHealthMonitor, step: AdminStep) -> (action: AdminAction)
        ensures
            (final(monitor)@, action@) == admin_next(self.token@, old(monitor)@, step),
    {
        match step {
            AdminStep::Received(request) => {
                if !self.authenticates(&request) {
                    return Self::refuse("authentication failed");
                }
                let command = request.command.as_str();
                if same_text(command, "host_resume") {
                    AdminAction::QueryLifecycle(AdminQuery::HostResume)
                } else if same_text(command, "stop") {
                    // New work on the mappings ends first. The device is told to stop without
                    // waiting for a command that still runs; that one is waited for before the
                    // stop is confirmed.
                    monitor.begin_suppress_repairs();
                    AdminAction::RequestStop
                } else if same_text(command, "status") {
                    AdminAction::QueryLifecycle(AdminQuery::Status)
                } else if same_text(command, "shutdown") {
                    AdminAction::QueryLifecycle(AdminQuery::Shutdown)
                } else {
                    Self::refuse("unknown command")
                }
            },
            AdminStep::LifecycleKnown { query, status } => {
                match query {
                    AdminQuery::HostResume => {
                        if status.state.is_active() {
                            let _ = monitor.notify_host_resume();
                            AdminAction::ResetTransport(TRANSPORT_RECOVERY_REASON)
                        } else {
                            Self::serve_status(status)
                        }
                    },
                    AdminQuery::Status => Self::serve_status(status),
                    AdminQuery::Shutdown => {
                        let stopped = status.state == HostState::Stopped;
                        let error = if stopped {
                            None
                        } else {
                            Some("daemon shutdown requires stopped state".to_owned())
                        };
                        AdminAction::Respond {
                            response: AdminResponse {
                                ok: stopped,
                                repairs_suppressed: monitor.stopping,
                                error,
                                status: Some(status),
                            },
                            shutdown: stopped,
                        }
                    },
                }
            },
            AdminStep::TransportReset(status) => Self::serve_status(status),
            AdminStep::StopRequested(error) => AdminAction::DrainRepairs(error),
            AdminStep::RepairsDrained { error, status } => {
                AdminAction::Respond {
                    response: AdminResponse {
                        ok: error.is_none(),
                        repairs_suppressed: true,
                        error,
                        status: Some(status),
                    },
                    shutdown: false,
                }
            },
        }
    }
}

/// The request that a client sends, with the token as it was stored.
pub fn admin_command(stored_token: &str, command: &str) -> (request: AdminRequest)
    ensures
        request.token@ == trim(stored_token@),
        request.command@ == command@,
{
    AdminRequest { token: trimmed(stored_token), command: command.to_owned() }
}

/// The number that four bytes spell, the most significant one first.
pub open spec fn big_endian(bytes: Seq<u8>) -> int {
    bytes[0] * 0x100_0000 + bytes[1] * 0x1_0000 + bytes[2] * 0x100 + bytes[3]
}

/// Reads the length of a message from its header. A message that is too long is refused before
/// any of it is read.
pub fn admin_message_length(header: [u8; 4]) -> (length: Result<usize, RuntimeError>)
    ensures
        length == if big_endian(header@) <= MAX_ADMIN_MESSAGE {
            Ok::<usize, RuntimeError>(big_endian(header@) as usize)
        } else {
            Err::<usize, RuntimeError>(
                RuntimeError::AdminMessageTooLarge(big_endian(header@) as usize),
            )
        },
{
    let length = header[0] as u32 * 0x100_0000 + header[1] as u32 * 0x1_0000 + header[2] as u32
        * 0x100 + header[3] as u32;
    let length = length as usize;
    if length > MAX_ADMIN_MESSAGE {
        return Err(RuntimeError::AdminMessageTooLarge(length));
    }
    Ok(length)
}

/// The message as it is sent: its length in four bytes, the most significant one first, and the
/// message.
pub open spec fn framed(message: Seq<u8>) -> Seq<u8> {
    seq![0u8, 0u8, (message.len() / 0x100) as u8, (message.len() % 0x100) as u8] + message
}

/// Prepares a message for being sent, unless it is too long.
pub fn frame_admin_message(message: &[u8]) -> (frame: Result<Vec<u8>, RuntimeError>)
    ensures
        match frame {
            Ok(frame) => message@.len() <= MAX_ADMIN_MESSAGE && frame@ == framed(message@),
            Err(error) => message@.len() > MAX_ADMIN_MESSAGE && error
                == RuntimeError::AdminMessageTooLarge(message@.len() as usize),
        },
{
    let length = message.len();
    if length > MAX_ADMIN_MESSAGE {
        return Err(RuntimeError::AdminMessageTooLarge(length));
    }
    let mut frame: Vec<u8> = Vec::new();
    frame.push(0);
    frame.push(0);
    frame.push((length / 0x100) as u8);
    frame.push((length % 0x100) as u8);
    let mut at: usize = 0;
    while at < length
        invariant
            at <= length,
            length == message@.len(),
            frame@ == framed(message@).take(4 + at),
        decreases length - at,
    {
        frame.push(message[at]);
        at = at + 1;
        assert(framed(message@).take(4 + at) =~= framed(message@).take(4 + at - 1).push(
            message@[at - 1],
        ));
    }
    assert(framed(message@).take(4 + length) =~= framed(message@));
    Ok(frame)
}

/// What a look at the socket of the endpoint found.
#[derive(Clone, Copy, Debug, PartialEq, Eq, Structural)]
pub enum SocketProbe {
    /// There is no socket.
    Absent,
    /// Somebody answers on it.
    Serving,
    /// Nobody answers on it.
    Abandoned,
    /// It could not be found out.
    Failed,
}

/// What to do about the socket of the endpoint.
#[derive(Clone, Copy, Debug, PartialEq, Eq, Structural)]
pub enum SocketAction {
    Bind,
    RemoveAndBind,
    /// Give up: the endpoint is served already.
    RefuseServing,
    /// Give up with the error of the probe.
    Fail,
}

/// Decides what to do about a socket: only one that nobody answers on is taken away.
pub fn admin_socket_action(probe: SocketProbe) -> (action: SocketAction)
    ensures
        action == match probe {
            SocketProbe::Absent => SocketAction::Bind,
            SocketProbe::Serving => SocketAction::RefuseServing,
            SocketProbe::Abandoned => SocketAction::RemoveAndBind,
            SocketProbe::Failed => SocketAction::Fail,
        },
{
    match probe {
        SocketProbe::Absent => SocketAction::Bind,
        SocketProbe::Serving => SocketAction::RefuseServing,
        SocketProbe::Abandoned => SocketAction::RemoveAndBind,
        SocketProbe::Failed => SocketAction::Fail,
    }
}

/// How the creation or the opening of a pipe ended.
#[derive(Clone, Copy, Debug, PartialEq, Eq, Structural)]
pub enum PipeOutcome {
    Ready,
    /// Every instance of the pipe is in use.
    Busy,
    Failed,
}

/// What to do about a pipe.
#[derive(Clone, Copy, Debug, PartialEq, Eq, Structural)]
pub enum PipeAction {
    Use,
    /// Try again after a fortieth of a second.
    TryAgain,
    Fail,
}

/// Decides what to do about a pipe: one that is in use is waited for, by the server and by its
/// clients.
pub fn pipe_action(outcome: PipeOutcome) -> (action: PipeAction)
    ensures
        action == match outcome {
            PipeOutcome::Ready => PipeAction::Use,
            PipeOutcome::Busy => PipeAction::TryAgain,
            PipeOutcome::Failed => PipeAction::Fail,
        },
{
    match outcome {
        PipeOutcome::Ready => PipeAction::Use,
        PipeOutcome::Busy => PipeAction::TryAgain,
        PipeOutcome::Failed => PipeAction::Fail,
    }
}

/// The token of the endpoint, and whether it has to be written down.
#[derive(Debug)]
pub struct AdminToken {
    pub token: String,
    pub is_new: bool,
}

/// A stored token can be used: but for white space around it, it names a session.
pub open spec fn usable_token(stored: Option<&str>) -> bool {
    stored matches Some(stored) && names_session(trim(stored@))
}

/// Takes the stored token when it can be used, and `fresh` otherwise.
pub fn load_or_create_admin_token(stored: Option<&str>, fresh: SessionId) -> (token: AdminToken)
    ensures
        token.is_new == !usable_token(stored),
        token.token@ == if usable_token(stored) {
            trim(stored->0@)
        } else {
            crate::state::hex_text(fresh.0@)
        },
{
    if let Some(stored) = stored {
        let token = trimmed(stored);
        if is_session_name(token.as_str()) {
            return AdminToken { token, is_new: false };
        }
    }
    AdminToken { token: fresh.to_text(), is_new: true }
}

/// How the wait for the endpoint stands.
#[derive(Clone, Copy, Debug, PartialEq, Eq, Structural)]
pub enum AdminReadiness {
    Ready,
    /// Ask again after a fortieth of a second.
    AskAgain,
    TimedOut,
}

/// Judges an attempt to reach the endpoint, which has three seconds to come up.
pub fn admin_readiness(started: Instant, now: Instant, answered: bool) -> (readiness:
    AdminReadiness)
    ensures
        readiness == if answered {
            AdminReadiness::Ready
        } else if now@ - started@ >= 3_000_000_000 {
            AdminReadiness::TimedOut
        } else {
            AdminReadiness::AskAgain
        },
{
    if answered {
        AdminReadiness::Ready
    } else if now.duration_since(started).at_least(Duration::from_secs(3)) {
        AdminReadiness::TimedOut
    } else {
        AdminReadiness::AskAgain
    }
}

/// A request with a wrong token is refused and changes nothing, whatever it asks for.
pub proof fn wrong_token_is_refused(
    token: Seq<char>,
    monitor: MonitorModel,
    request: AdminRequest,
)
    requires
        request.token@ != token,
    ensures
        admin_next(token, monitor, AdminStep::Received(request)) == (
            monitor,
            refusal("authentication failed"@),
        ),
{
}

/// The runtime shuts down only for an answer to a shutdown request that finds the lifecycle
/// stopped, and the answer says so.
pub proof fn shutdown_needs_a_stopped_lifecycle(
    token: Seq<char>,
    monitor: MonitorModel,
    step: AdminStep,
    response: ResponseModel,
)
    requires
        admin_next(token, monitor, step).1 == (ActionModel::Respond { response, shutdown: true }),
    ensures
        response.ok,
        response.status matches Some(status) && status.state == HostState::Stopped,
        step matches AdminStep::LifecycleKnown { query, status } && query == AdminQuery::Shutdown,
{
}

/// A stop suppresses repairs before the device hears of it, and once they are suppressed no step
/// of any request allows them again.
pub proof fn stop_suppresses_repairs(
    token: Seq<char>,
    monitor: MonitorModel,
    step: AdminStep,
)
    ensures
        admin_next(token, monitor, step).1 is RequestStop ==> admin_next(
            token,
            monitor,
            step,
        ).0.stopping,
        monitor.stopping ==> admin_next(token, monitor, step).0.stopping,
{
}

/// A resume of the host advances the recovery only while the lifecycle has a peer to lose.
pub proof fn resume_matters_to_an_active_lifecycle(
    token: Seq<char>,
    monitor: MonitorModel,
    status: StateSnapshot,
)
    ensures
        ({
            let (after, action) = admin_next(
                token,
                monitor,
                AdminStep::LifecycleKnown { query: AdminQuery::HostResume, status },
            );
            &&& status.state.active() ==> after.transport_recovery.generation
                == crate::relay::successor(monitor.transport_recovery.generation)
                && after.transport_recovery.state.requires_recovery()
            &&& !status.state.active() ==> after == monitor && action == served(status)
        }),
{
}

/// The token of a session is taken again as it was written down: it is usable, and nothing is
/// trimmed from it.
pub proof fn stored_token_is_taken_again(stored: &str, session: SessionId)
    requires
        stored@ == crate::state::hex_text(session.0@),
        session.some_session(),
    ensures
        usable_token(Some(stored)),
        trim(stored@) == stored@,
{
    crate::state::session_text_round_trip(session);
    assert forall|i: int| 0 <= i < stored@.len() implies !crate::text::whitespace(
        #[trigger] stored@[i],
    ) by {
        assert(crate::state::hex_value(stored@[i]) is Some);
    }
}

/// A message that was prepared for being sent reads back: its header gives its length, which is
/// accepted, and the rest is the message.
pub proof fn frame_reads_back(message: Seq<u8>)
    requires
        message.len() <= MAX_ADMIN_MESSAGE,
    ensures
        framed(message).len() == 4 + message.len(),
        big_endian(framed(message).take(4)) == message.len(),
        framed(message).skip(4) == message,
{
    assert(framed(message).skip(4) =~= message);
}

/// Each step of the handling of a request changes the monitor by a run of the monitor's events.
/// Only the report that the host resumed sets a recovery off.
pub proof fn admin_steps_are_monitor_events(
    token: Seq<char>,
    monitor: MonitorModel,
    step: AdminStep,
) -> (events: Seq<MonitorEvent>)
    ensures
        admin_next(token, monitor, step).0 == monitor.after_all(events),
        !(step matches AdminStep::LifecycleKnown { query, status: _ } && query
            == AdminQuery::HostResume) ==> internal(events),
{
    let (next, action) = admin_next(token, monitor, step);
    if action is RequestStop {
        lemma_one_event(monitor, MonitorEvent::Suppressed, next)
    } else if action is ResetTransport {
        lemma_one_event(monitor, MonitorEvent::HostResumed, next)
    } else {
        lemma_no_event(monitor, next)
    }
}

proof fn lemma_commands_differ()
    ensures
        "host_resume"@ != "stop"@,
        "host_resume"@ != "status"@,
        "host_resume"@ != "shutdown"@,
        "stop"@ != "status"@,
        "stop"@ != "shutdown"@,
        "status"@ != "shutdown"@,
{
    reveal_strlit("host_resume");
    reveal_strlit("stop");
    reveal_strlit("status");
    reveal_strlit("shutdown");
    assert("host_resume"@.len() == 11 && "stop"@.len() == 4 && "status"@.len() == 6
        && "shutdown"@.len() == 8);
}

/// What an authenticated request leads to: a stop suppresses repairs and tells the device at once,
/// the other known commands find out the lifecycle first and change nothing, and an unknown command
/// is refused.
pub proof fn commands_of_the_endpoint(
    token: Seq<char>,
    monitor: MonitorModel,
    request: AdminRequest,
)
    requires
        request.token@ == token,
    ensures
        ({
            let command = request.command@;
            let (next, action) = admin_next(token, monitor, AdminStep::Received(request));
            let known = command == "host_resume"@ || command == "stop"@ || command == "status"@
                || command == "shutdown"@;
            &&& command == "stop"@ <==> action is RequestStop
            &&& command == "stop"@ ==> next.stopping && next.status.repair_suppressed
                && !next.status.active && next.wake.all
            &&& command != "stop"@ ==> next == monitor
            &&& command == "host_resume"@ <==> action == ActionModel::QueryLifecycle(
                AdminQuery::HostResume,
            )
            &&& command == "status"@ <==> action == ActionModel::QueryLifecycle(AdminQuery::Status)
            &&& command == "shutdown"@ <==> action == ActionModel::QueryLifecycle(
                AdminQuery::Shutdown,
            )
            &&& !known ==> (action matches ActionModel::Respond { response, shutdown }
                && !shutdown && !response.ok && response.error == Some("unknown command"@)
                && response.status is None)
        }),
{
    lemma_commands_differ();
}

/// A request with another token gets an answer that says so and nothing of the host.
pub proof fn refusal_tells_nothing(
    token: Seq<char>,
    monitor: MonitorModel,
    request: AdminRequest,
)
    requires
        request.token@ != token,
    ensures
        ({
            let (next, action) = admin_next(token, monitor, AdminStep::Received(request));
            &&& next == monitor
            &&& action matches ActionModel::Respond { response, shutdown } && !shutdown
                && !response.ok && !response.repairs_suppressed && response.status is None
                && response.error == Some("authentication failed"@)
        }),
{
}

/// What a command does once the lifecycle is known. The status is told and changes nothing. A resume
/// sets a recovery off and drops the control connection if the lifecycle has a peer, and is answered
/// with the status otherwise. A shutdown is granted exactly to a stopped lifecycle.
pub proof fn commands_that_know_the_lifecycle(
    token: Seq<char>,
    monitor: MonitorModel,
    status: StateSnapshot,
)
    ensures
        ({
            let told = admin_next(
                token,
                monitor,
                AdminStep::LifecycleKnown { query: AdminQuery::Status, status },
            );
            let resumed = admin_next(
                token,
                monitor,
                AdminStep::LifecycleKnown { query: AdminQuery::HostResume, status },
            );
            let ended = admin_next(
                token,
                monitor,
                AdminStep::LifecycleKnown { query: AdminQuery::Shutdown, status },
            );
            let has_peer = status.state == HostState::Connected || status.state
                == HostState::Degraded;
            &&& told.0 == monitor && ended.0 == monitor
            &&& told.1 matches ActionModel::Respond { response, shutdown } && !shutdown
                && response.ok && response.error is None && response.status == Some(status)
            &&& has_peer <==> resumed.1 == ActionModel::ResetTransport(
                "rebuilding the wired transport generation"@,
            )
            &&& has_peer ==> resumed.0 == monitor.after(MonitorEvent::HostResumed)
            &&& !has_peer ==> resumed == told
            &&& ended.1 matches ActionModel::Respond { response, shutdown } && shutdown == (
            status.state == HostState::Stopped) && response.ok == shutdown
                && response.repairs_suppressed == monitor.stopping && response.status == Some(
                status,
            ) && response.error == if shutdown {
                None
            } else {
                Some("daemon shutdown requires stopped state"@)
            }
        }),
{
}

/// A stop is answered once the device was told and the last command to it has ended: with the error
/// of the device, if there was one, and always saying that repairs are suppressed. A resume is
/// answered with the status.
pub proof fn stop_and_resume_are_answered(
    token: Seq<char>,
    monitor: MonitorModel,
    error: Option<String>,
    status: StateSnapshot,
)
    ensures
        ({
            let told = admin_next(token, monitor, AdminStep::StopRequested(error));
            let drained = admin_next(token, monitor, AdminStep::RepairsDrained { error, status });
            let reset = admin_next(token, monitor, AdminStep::TransportReset(status));
            &&& told.0 == monitor && drained.0 == monitor && reset.0 == monitor
            &&& told.1 matches ActionModel::DrainRepairs(kept) && (kept is Some <==> error is Some)
            &&& error matches Some(text) ==> told.1 == ActionModel::DrainRepairs(Some(text@))
            &&& drained.1 matches ActionModel::Respond { response, shutdown } && !shutdown
                && response.repairs_suppressed && response.status == Some(status) && (response.ok
                <==> error is None) && (response.error is None <==> error is None)
            &&& error matches Some(text) ==> (drained.1 matches ActionModel::Respond {
                response,
                shutdown: _,
            } && response.error == Some(text@))
            &&& reset.1 matches ActionModel::Respond { response, shutdown } && !shutdown
                && response.ok && response.error is None && response.status == Some(status)
        }),
{
}

/// The header of a message is its length as a number of four bytes: it grows with the message and
/// tells messages of different lengths apart, and a header of four bytes means nothing else.
pub proof fn header_is_the_length(header: Seq<u8>)
    requires
        header.len() == 4,
    ensures
        big_endian(header) == ((header[0] * 256 + header[1]) * 256 + header[2]) * 256 + header[3],
        0 <= big_endian(header) <= u32::MAX,
        big_endian(header) == 0 <==> header == seq![0u8, 0u8, 0u8, 0u8],
{
    if big_endian(header) == 0 {
        assert(header =~= seq![0u8, 0u8, 0u8, 0u8]);
    }
}

/// A stored token is used as it is, but for whitespace around it, exactly when it spells a session
/// that is not the zero session.
pub proof fn stored_token_names_a_session(stored: &str)
    ensures
        !usable_token(None),
        usable_token(Some(stored)) <==> (trim(stored@).len() == 32 && (forall|i: int|
            0 <= i < 32 ==> ('0' <= #[trigger] trim(stored@)[i] <= '9' || 'a' <= trim(stored@)[i]
                <= 'f' || 'A' <= trim(stored@)[i] <= 'F')) && exists|i: int|
            0 <= i < 32 && #[trigger] trim(stored@)[i] != '0'),
{
    let text = trim(stored@);
    crate::state::session_spelling_ignores_case(text);
    if crate::state::is_session_text(text) {
        crate::state::zero_names_no_session(text);
    }
}

} // verus!

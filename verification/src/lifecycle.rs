//! How the server starts, and how it ends.

use vstd::prelude::*;

use crate::error::Error;
use crate::ipc::{
    init_ipc_server, reply_to, ClientAction, ClientEvent, IPCCommand, IPCResponse, IoErrorKind,
};
use crate::server::{runtime_path, Server};
use crate::status::{ServerState, ServerStatus};

verus! {

/// What is said where the runtime directory is already there.
pub const RUNTIME_DIR_EXISTS: &'static str =
    "Trying to start the server, but the runtime directory already exists. This means that the server is either still running, or did not shut down correctly. Sometimes a call to `rmc repair` can fix this.";

/// What is said where the runtime directory may not be looked at.
pub const RUNTIME_DIR_DENIED: &'static str =
    "Could not access the server's runtime directory. The server may have been started by another user.";

/// Who may do what with the runtime directory: all for owner and group, nothing for others.
pub const RUNTIME_DIR_MODE: u32 = 0o770;

/// Who may do what with the file of the process number: owner and group may read it.
pub const PID_FILE_MODE: u32 = 0o440;

/// How far the server has come.
#[derive(Debug, Clone, Copy, PartialEq, Eq, Structural)]
pub enum Stage {
    NotStarted,
    /// It is being seen whether the runtime directory is there.
    Inspecting,
    /// The runtime directory is there: the server that it belongs to is being asked.
    Querying,
    /// The runtime directory and the file of the process number are being made.
    Preparing,
    StartingSignals,
    StartingIpc,
    Binding,
    Accepting,
    /// The server did not start, or ended with an error.
    Failed,
}

/// What happens while the server starts and runs.
#[derive(Debug)]
pub enum Event {
    Begin,
    RuntimeDirExists,
    /// The runtime directory could not be looked at.
    RuntimeDirError(IoErrorKind),
    /// The server that is already there has told its status.
    StatusKnown(ServerStatus),
    RuntimePrepared,
    SignalsStarted,
    SignalsFailed(String),
    IpcStarted,
    IpcFailed(String),
    Bound,
    Accepted,
    /// What was to be done failed with an error of its own.
    OutsideFailure,
}

/// What the server does next.
#[derive(Debug)]
pub enum Action {
    /// See whether the directory is there.
    InspectRuntimeDir(String),
    /// Say that the runtime directory is there, and ask the server for its status.
    QueryStatus(&'static str),
    /// Make the directory, and the file with the number of this process.
    PrepareRuntime { dir: String, dir_mode: u32, pid_file: String, pid_mode: u32 },
    StartSignals,
    /// Take commands at the socket.
    StartIpc(String),
    /// Say that the server is ready, and listen at its address.
    Bind(&'static str),
    /// Wait for a connection.
    Accept,
    /// Serve the connection, and wait for the next.
    ServeAndAccept,
    Fail(Error),
    /// Fail with the error that has just come up, and say something first where there is
    /// something to say.
    FailWithSource(Option<&'static str>),
}

/// The events that can come at a stage.
pub open spec fn expects(stage: Stage, event: Event) -> bool {
    match stage {
        Stage::NotStarted => event is Begin,
        Stage::Inspecting => event is RuntimeDirExists || event is RuntimeDirError,
        Stage::Querying => event is StatusKnown || event is OutsideFailure,
        Stage::Preparing => event is RuntimePrepared || event is OutsideFailure,
        Stage::StartingSignals => event is SignalsStarted || event is SignalsFailed,
        Stage::StartingIpc => event is IpcStarted || event is IpcFailed,
        Stage::Binding => event is Bound || event is OutsideFailure,
        Stage::Accepting => event is Accepted || event is OutsideFailure,
        Stage::Failed => false,
    }
}

/// The stage that an event leads to.
pub open spec fn next_stage(event: Event) -> Stage {
    match event {
        Event::Begin => Stage::Inspecting,
        Event::RuntimeDirExists => Stage::Querying,
        Event::RuntimeDirError(IoErrorKind::NotFound) => Stage::Preparing,
        Event::RuntimePrepared => Stage::StartingSignals,
        Event::SignalsStarted => Stage::StartingIpc,
        Event::IpcStarted => Stage::Binding,
        Event::Bound => Stage::Accepting,
        Event::Accepted => Stage::Accepting,
        _ => Stage::Failed,
    }
}

/// The state of the server after an event.
pub open spec fn next_state(state: ServerState, event: Event) -> ServerState {
    match event {
        Event::Begin => ServerState::Starting,
        Event::IpcStarted => ServerState::Running,
        _ => state,
    }
}

/// `action` is what an event is met with.
pub open spec fn meets(action: Action, event: Event) -> bool {
    match event {
        Event::Begin => action matches Action::InspectRuntimeDir(dir) && dir@ == runtime_path(),
        Event::RuntimeDirExists => action == Action::QueryStatus(RUNTIME_DIR_EXISTS),
        Event::RuntimeDirError(kind) => match kind {
            IoErrorKind::NotFound => action matches Action::PrepareRuntime {
                dir,
                dir_mode,
                pid_file,
                pid_mode,
            } && dir@ == runtime_path() && dir_mode == RUNTIME_DIR_MODE && pid_file@
                == runtime_path() + "/pid"@ && pid_mode == PID_FILE_MODE,
            IoErrorKind::PermissionDenied => action == Action::FailWithSource(
                Some(RUNTIME_DIR_DENIED),
            ),
            IoErrorKind::Other => action == Action::FailWithSource(None),
        },
        Event::StatusKnown(status) => action == Action::Fail(Error::ServerAlreadyStarted(status)),
        Event::RuntimePrepared => action == Action::StartSignals,
        Event::SignalsStarted => action matches Action::StartIpc(socket) && socket@
            == runtime_path() + "/socket"@,
        Event::SignalsFailed(reason) => action == Action::Fail(
            Error::CouldNotStartSignalHandler(reason),
        ),
        Event::IpcStarted => action == Action::Bind(Server::STARTING_MESSAGE),
        Event::IpcFailed(reason) => action == Action::Fail(Error::CouldNotStartIPCHandler(reason)),
        Event::Bound => action == Action::Accept,
        Event::Accepted => action == Action::ServeAndAccept,
        Event::OutsideFailure => action == Action::FailWithSource(None),
    }
}

/// Takes the server from one stage to the next, and says what to do.
pub fn run(stage: Stage, status: &mut ServerStatus, event: Event) -> (step: (Stage, Action))
    requires
        expects(stage, event),
    ensures
        step.0 == next_stage(event),
        meets(step.1, event),
        final(status).state == next_state(old(status).state, event),
{
    match event {
        Event::Begin => {
            status.state = ServerState::Starting;
            match Server::runtime_dir() {
                Ok(dir) => (Stage::Inspecting, Action::InspectRuntimeDir(dir)),
                Err(error) => (Stage::Failed, Action::Fail(error)),
            }
        },
        Event::RuntimeDirExists => (Stage::Querying, Action::QueryStatus(RUNTIME_DIR_EXISTS)),
        Event::RuntimeDirError(kind) => match kind {
            IoErrorKind::NotFound => prepare_runtime(),
            IoErrorKind::PermissionDenied => (
                Stage::Failed,
                Action::FailWithSource(Some(RUNTIME_DIR_DENIED)),
            ),
            IoErrorKind::Other => (Stage::Failed, Action::FailWithSource(None)),
        },
        Event::StatusKnown(current) => (
            Stage::Failed,
            Action::Fail(Error::ServerAlreadyStarted(current)),
        ),
        Event::RuntimePrepared => (Stage::StartingSignals, Action::StartSignals),
        Event::SignalsStarted => match init_ipc_server() {
            Ok(socket) => (Stage::StartingIpc, Action::StartIpc(socket)),
            Err(error) => (Stage::Failed, Action::Fail(error)),
        },
        Event::SignalsFailed(reason) => (
            Stage::Failed,
            Action::Fail(Error::CouldNotStartSignalHandler(reason)),
        ),
        Event::IpcStarted => {
            status.state = ServerState::Running;
            (Stage::Binding, Action::Bind(Server::STARTING_MESSAGE))
        },
        Event::IpcFailed(reason) => (
            Stage::Failed,
            Action::Fail(Error::CouldNotStartIPCHandler(reason)),
        ),
        Event::Bound => (Stage::Accepting, Action::Accept),
        Event::Accepted => (Stage::Accepting, Action::ServeAndAccept),
        Event::OutsideFailure => (Stage::Failed, Action::FailWithSource(None)),
    }
}

/// The step that makes the runtime directory and the file of the process number.
fn prepare_runtime() -> (step: (Stage, Action))
    ensures
        step.0 == Stage::Preparing,
        meets(step.1, Event::RuntimeDirError(IoErrorKind::NotFound)),
{
    match Server::runtime_dir() {
        Ok(dir) => match Server::pid_file() {
            Ok(pid_file) => (
                Stage::Preparing,
                Action::PrepareRuntime {
                    dir,
                    dir_mode: RUNTIME_DIR_MODE,
                    pid_file,
                    pid_mode: PID_FILE_MODE,
                },
            ),
            Err(error) => (Stage::Failed, Action::Fail(error)),
        },
        Err(error) => (Stage::Failed, Action::Fail(error)),
    }
}

/// The stage after a number of events.
pub open spec fn stage_after(events: Seq<Event>) -> Stage {
    if events.len() == 0 {
        Stage::NotStarted
    } else {
        next_stage(events.last())
    }
}

/// The state after a number of events.
pub open spec fn state_after(before: ServerState, events: Seq<Event>) -> ServerState
    decreases events.len(),
{
    if events.len() == 0 {
        before
    } else {
        next_state(state_after(before, events.drop_last()), events.last())
    }
}

/// The event at `at` comes at a stage that expects it.
pub open spec fn comes_in_turn(events: Seq<Event>, at: int) -> bool {
    expects(stage_after(events.take(at)), events[at])
}

/// Each event comes at a stage that expects it.
pub open spec fn possible(events: Seq<Event>) -> bool {
    forall|at: int| 0 <= at < events.len() ==> #[trigger] comes_in_turn(events, at)
}

/// `state` is the state that goes with `stage`, for a server whose state was `before` when it
/// had not started.
spec fn goes_with(state: ServerState, stage: Stage, before: ServerState) -> bool {
    match stage {
        Stage::NotStarted => state == before,
        Stage::Binding | Stage::Accepting => state == ServerState::Running,
        Stage::Failed => true,
        _ => state == ServerState::Starting,
    }
}

/// An event that comes in its turn takes stage and state on together.
proof fn lemma_event_keeps_state_with_stage(
    state: ServerState,
    stage: Stage,
    before: ServerState,
    event: Event,
)
    requires
        goes_with(state, stage, before),
        expects(stage, event),
    ensures
        goes_with(next_state(state, event), next_stage(event), before),
{
}

/// All but the last of a number of events come in their turn too, and so does the last after
/// them.
proof fn lemma_all_but_last_possible(events: Seq<Event>)
    requires
        possible(events),
        events.len() > 0,
    ensures
        possible(events.drop_last()),
        expects(stage_after(events.drop_last()), events.last()),
{
    let earlier = events.drop_last();
    assert forall|at: int| 0 <= at < earlier.len() implies #[trigger] comes_in_turn(
        earlier,
        at,
    ) by {
        assert(earlier.take(at) =~= events.take(at));
        assert(comes_in_turn(events, at));
    }
    assert(events.take(events.len() - 1) =~= earlier);
    assert(comes_in_turn(events, events.len() - 1));
}

/// The state after a number of events goes with the stage after them.
proof fn lemma_state_goes_with_stage(before: ServerState, events: Seq<Event>)
    requires
        possible(events),
    ensures
        goes_with(state_after(before, events), stage_after(events), before),
    decreases events.len(),
{
    if events.len() > 0 {
        let earlier = events.drop_last();
        lemma_all_but_last_possible(events);
        lemma_state_goes_with_stage(before, earlier);
        lemma_event_keeps_state_with_stage(
            state_after(before, earlier),
            stage_after(earlier),
            before,
            events.last(),
        );
    }
}

/// A server that is asked for its status while it starts says that it is starting, and one
/// that listens or serves says that it is running.
pub proof fn law_status_follows_stage(before: ServerState, events: Seq<Event>)
    requires
        possible(events),
    ensures
        ({
            let status = ServerStatus { state: state_after(before, events) };
            match stage_after(events) {
                Stage::Inspecting
                | Stage::Querying
                | Stage::Preparing
                | Stage::StartingSignals
                | Stage::StartingIpc => reply_to(IPCCommand::GetStatus, status)
                    == IPCResponse::Status(ServerStatus { state: ServerState::Starting }),
                Stage::Binding | Stage::Accepting => reply_to(IPCCommand::GetStatus, status)
                    == IPCResponse::Status(ServerStatus { state: ServerState::Running }),
                _ => true,
            }
        }),
{
    lemma_state_goes_with_stage(before, events);
}

/// Each event of the setup comes right after the one that led to its stage, and the first
/// event comes after none.
proof fn lemma_event_before(events: Seq<Event>, at: int)
    requires
        possible(events),
        0 <= at < events.len(),
    ensures
        events[at] is Begin <==> at == 0,
        events[at] is RuntimeDirError ==> events[at - 1] is Begin,
        events[at] is RuntimePrepared ==> events[at - 1] == Event::RuntimeDirError(
            IoErrorKind::NotFound,
        ),
        events[at] is SignalsStarted ==> events[at - 1] is RuntimePrepared,
        events[at] is IpcStarted ==> events[at - 1] is SignalsStarted,
{
    assert(comes_in_turn(events, at));
    if at > 0 {
        assert(events.take(at).last() == events[at - 1]);
    }
}

/// Where the command handler has started, all that has to come before it has come.
#[verifier::spinoff_prover]
proof fn lemma_setup_comes_first(events: Seq<Event>, at: int)
    requires
        possible(events),
        0 <= at < events.len(),
        events[at] is IpcStarted,
    ensures
        at == 4,
        events[0] is Begin,
        events[1] == Event::RuntimeDirError(IoErrorKind::NotFound),
        events[2] is RuntimePrepared,
        events[3] is SignalsStarted,
{
    lemma_event_before(events, at);
    lemma_event_before(events, at - 1);
    lemma_event_before(events, at - 2);
    lemma_event_before(events, at - 3);
    lemma_event_before(events, at - 4);
}

/// A state that was not there before and is running came with the command handler.
proof fn lemma_running_comes_with_ipc(before: ServerState, events: Seq<Event>) -> (at: int)
    requires
        before != ServerState::Running,
        state_after(before, events) == ServerState::Running,
    ensures
        0 <= at < events.len(),
        events[at] is IpcStarted,
    decreases events.len(),
{
    if events.last() is IpcStarted {
        events.len() - 1
    } else {
        lemma_running_comes_with_ipc(before, events.drop_last())
    }
}

/// The server is running only after the runtime directory was found missing and was made,
/// the signal handler was started, and the command handler was started, in this order.
pub proof fn law_running_only_after_setup(before: ServerState, events: Seq<Event>)
    requires
        before != ServerState::Running,
        possible(events),
        state_after(before, events) == ServerState::Running,
    ensures
        events.len() >= 5,
        events[0] is Begin,
        events[1] == Event::RuntimeDirError(IoErrorKind::NotFound),
        events[2] is RuntimePrepared,
        events[3] is SignalsStarted,
        events[4] is IpcStarted,
{
    let at = lemma_running_comes_with_ipc(before, events);
    lemma_setup_comes_first(events, at);
}

/// The runtime directory is made only where it is missing, so a server never takes over the
/// directory of another.
pub proof fn law_runtime_made_only_when_missing(action: Action, event: Event)
    requires
        meets(action, event),
        action is PrepareRuntime,
    ensures
        event == Event::RuntimeDirError(IoErrorKind::NotFound),
{
}

pub const SIGHUP: i32 = 1;

pub const SIGINT: i32 = 2;

pub const SIGTERM: i32 = 15;

/// The signals that the server asks to be told of.
pub fn init_signal_handler() -> (signals: Vec<i32>)
    ensures
        signals@ == seq![SIGINT, SIGTERM, SIGHUP],
{
    let signals: Vec<i32> = vec![SIGINT, SIGTERM, SIGHUP];
    assert(signals@ =~= seq![SIGINT, SIGTERM, SIGHUP]);
    signals
}

/// How the server ends: it removes a directory with all that is in it, says something, and
/// exits.
#[derive(Debug)]
pub struct Shutdown {
    pub remove_dir: String,
    pub notice: &'static str,
    pub exit_code: i32,
}

/// Ends the server on a signal to do so.
pub fn signal_handler(signal: i32, status: &mut ServerStatus) -> (shutdown: Shutdown)
    requires
        signal == SIGTERM || signal == SIGINT,
    ensures
        final(status).state == ServerState::Terminating,
        shutdown.remove_dir@ == runtime_path(),
        shutdown.notice@ == "Deleted the runtime directory"@,
        shutdown.exit_code == 1,
{
    status.state = ServerState::Terminating;
    let remove_dir = Server::runtime_dir().unwrap();
    Shutdown { remove_dir, notice: "Deleted the runtime directory", exit_code: 1 }
}

/// All that a starting server makes, the file of the process number and the socket, lies in
/// the directory that a server removes when it ends.
pub proof fn law_shutdown_removes_what_start_made(action: Action, event: Event)
    requires
        meets(action, event),
    ensures
        action matches Action::PrepareRuntime { dir, dir_mode, pid_file, pid_mode } ==> dir@
            == runtime_path() && (runtime_path() + "/"@).is_prefix_of(pid_file@),
        action matches Action::StartIpc(socket) ==> (runtime_path() + "/"@).is_prefix_of(socket@),
{
    reveal_strlit("/");
    reveal_strlit("/pid");
    reveal_strlit("/socket");
    let inside = runtime_path() + "/"@;
    assert((runtime_path() + "/pid"@).take(inside.len() as int) =~= inside);
    assert((runtime_path() + "/socket"@).take(inside.len() as int) =~= inside);
}

/// The server ends only together with the stage of failure, and only on an event that
/// reports a failure or a server that is already there.
pub proof fn law_ends_only_on_failure(
    stage: Stage,
    status: &mut ServerStatus,
    event: Event,
    step: (Stage, Action),
)
    requires
        call_ensures(run, (stage, status, event), step),
    ensures
        step.1 is Fail || step.1 is FailWithSource <==> step.0 is Failed,
        step.0 is Failed <==> event is StatusKnown || event is SignalsFailed || event is IpcFailed
            || event is OutsideFailure || (event matches Event::RuntimeDirError(kind)
            && !(kind is NotFound)),
{
}

/// Where the server comes to wait for connections it does wait for one: it accepts one where
/// the listener has just been bound, and serves one first where one has just come. It serves
/// and accepts nowhere else.
pub proof fn law_accepting_waits_for_a_connection(
    stage: Stage,
    status: &mut ServerStatus,
    event: Event,
    step: (Stage, Action),
)
    requires
        call_ensures(run, (stage, status, event), step),
    ensures
        step.0 is Accepting <==> step.1 is Accept || step.1 is ServeAndAccept,
        step.1 is Accept <==> event is Bound,
        step.1 is ServeAndAccept <==> event is Accepted,
{
}

/// What is done next is what the new stage is for.
pub proof fn law_action_is_that_of_the_stage(
    stage: Stage,
    status: &mut ServerStatus,
    event: Event,
    step: (Stage, Action),
)
    requires
        call_ensures(run, (stage, status, event), step),
    ensures
        step.0 is Inspecting <==> step.1 is InspectRuntimeDir,
        step.0 is Querying <==> step.1 is QueryStatus,
        step.0 is Preparing <==> step.1 is PrepareRuntime,
        step.0 is StartingSignals <==> step.1 is StartSignals,
        step.0 is StartingIpc <==> step.1 is StartIpc,
        step.0 is Binding <==> step.1 is Bind,
        !(step.0 is NotStarted),
{
}

/// An event that reports no failure leads from one stage to the next. From the inspection of
/// the runtime directory it leads to its server being asked where it is there, and to its
/// making where it is not.
pub proof fn law_work_done_leads_on(
    stage: Stage,
    status: &mut ServerStatus,
    event: Event,
    step: (Stage, Action),
)
    requires
        call_ensures(run, (stage, status, event), step),
        expects(stage, event),
        !(step.0 is Failed),
    ensures
        stage is NotStarted ==> step.0 is Inspecting,
        stage is Inspecting ==> step.0 is Querying || step.0 is Preparing,
        stage is Inspecting && step.0 is Querying <==> event is RuntimeDirExists,
        stage is Preparing ==> step.0 is StartingSignals,
        stage is StartingSignals ==> step.0 is StartingIpc,
        stage is StartingIpc ==> step.0 is Binding,
        stage is Binding ==> step.0 is Accepting,
        stage is Accepting ==> step.0 is Accepting,
        !(stage is Querying),
        !(stage is Failed),
{
}

/// At every stage but the last the event that comes of its work may come, and a server that
/// has failed does nothing more.
pub proof fn law_no_stage_but_failure_is_stuck(stage: Stage)
    ensures
        stage is Failed <==> forall|event: Event| !#[trigger] expects(stage, event),
        stage is NotStarted ==> expects(stage, Event::Begin),
        stage is Inspecting ==> expects(stage, Event::RuntimeDirExists) && forall|
            kind: IoErrorKind,
        | #[trigger] expects(stage, Event::RuntimeDirError(kind)),
        stage is Querying ==> expects(stage, Event::OutsideFailure) && forall|
            status: ServerStatus,
        | #[trigger] expects(stage, Event::StatusKnown(status)),
        stage is Preparing ==> expects(stage, Event::RuntimePrepared) && expects(
            stage,
            Event::OutsideFailure,
        ),
        stage is StartingSignals ==> expects(stage, Event::SignalsStarted) && forall|
            reason: String,
        | #[trigger] expects(stage, Event::SignalsFailed(reason)),
        stage is StartingIpc ==> expects(stage, Event::IpcStarted) && forall|reason: String|
            #[trigger] expects(stage, Event::IpcFailed(reason)),
        stage is Binding ==> expects(stage, Event::Bound) && expects(stage, Event::OutsideFailure),
        stage is Accepting ==> expects(stage, Event::Accepted) && expects(
            stage,
            Event::OutsideFailure,
        ),
{
    assert(expects(Stage::NotStarted, Event::Begin));
    assert(expects(Stage::Inspecting, Event::RuntimeDirExists));
    assert(expects(Stage::Querying, Event::OutsideFailure));
    assert(expects(Stage::Preparing, Event::RuntimePrepared));
    assert(expects(Stage::StartingSignals, Event::SignalsStarted));
    assert(expects(Stage::StartingIpc, Event::IpcStarted));
    assert(expects(Stage::Binding, Event::Bound));
    assert(expects(Stage::Accepting, Event::Accepted));
}

/// The server says that it is starting once it has begun, and that it is running once the
/// command handler has started. No other event, and no failure, changes what it says.
pub proof fn law_status_changes_twice(
    stage: Stage,
    status: &mut ServerStatus,
    event: Event,
    step: (Stage, Action),
)
    requires
        call_ensures(run, (stage, status, event), step),
    ensures
        event is Begin ==> final(status).state is Starting,
        event is IpcStarted ==> final(status).state is Running,
        !(event is Begin) && !(event is IpcStarted) ==> final(status).state == old(status).state,
        step.0 is Failed ==> final(status).state == old(status).state,
        step.0 is Binding ==> final(status).state is Running,
{
}

/// A failure is told with its own reason: with the status of the server that is already
/// there, with what the handler that did not start says, or with the error that has come up.
pub proof fn law_failure_tells_its_reason(
    stage: Stage,
    status: &mut ServerStatus,
    event: Event,
    step: (Stage, Action),
)
    requires
        call_ensures(run, (stage, status, event), step),
    ensures
        event matches Event::StatusKnown(current) ==> step.1 == Action::Fail(
            Error::ServerAlreadyStarted(current),
        ),
        event matches Event::SignalsFailed(reason) ==> step.1 == Action::Fail(
            Error::CouldNotStartSignalHandler(reason),
        ),
        event matches Event::IpcFailed(reason) ==> step.1 == Action::Fail(
            Error::CouldNotStartIPCHandler(reason),
        ),
        step.1 is Fail ==> event is StatusKnown || event is SignalsFailed || event is IpcFailed,
        step.1 matches Action::FailWithSource(Some(notice)) ==> event == Event::RuntimeDirError(
            IoErrorKind::PermissionDenied,
        ) && notice@
            == "Could not access the server's runtime directory. The server may have been started by another user."@,
        event == Event::RuntimeDirError(IoErrorKind::PermissionDenied) ==> (
        step.1 matches Action::FailWithSource(notice) && notice is Some),
        step.1 matches Action::QueryStatus(notice) ==> notice@
            == "Trying to start the server, but the runtime directory already exists. This means that the server is either still running, or did not shut down correctly. Sometimes a call to `rmc repair` can fix this."@,
        step.1 matches Action::Bind(notice) ==> notice@ == "Initialized. Starting server..."@,
{
}

/// The directory that is inspected is the one that is made, and the one that is removed when
/// the server ends. Only its owner and group may use it. The file of the process number,
/// which they may only read, and the socket lie in it. It is where other processes look for
/// the socket.
pub proof fn law_one_runtime_directory(
    stage: Stage,
    status: &mut ServerStatus,
    event: Event,
    step: (Stage, Action),
    runtime_dir: Result<String, Error>,
    pid_file: Result<String, Error>,
    socket_file: Result<String, Error>,
    command: &IPCCommand,
    connecting: ClientAction,
    signal: i32,
    ending: &mut ServerStatus,
    shutdown: Shutdown,
)
    requires
        call_ensures(run, (stage, status, event), step),
        call_ensures(Server::runtime_dir, (), runtime_dir),
        call_ensures(Server::pid_file, (), pid_file),
        call_ensures(Server::socket_file, (), socket_file),
        call_ensures(Server::exec_ipc_message, (command, ClientEvent::Begin), connecting),
        call_ensures(signal_handler, (signal, ending), shutdown),
    ensures
        runtime_dir matches Ok(dir) && dir@ == "/tmp/rmc"@ && shutdown.remove_dir@ == dir@,
        pid_file matches Ok(file) && file@ == "/tmp/rmc"@ + "/pid"@,
        socket_file matches Ok(socket) && socket@ == "/tmp/rmc"@ + "/socket"@,
        connecting matches ClientAction::Connect(socket) && socket@ == "/tmp/rmc"@ + "/socket"@,
        step.1 matches Action::InspectRuntimeDir(inspected) ==> inspected@ == "/tmp/rmc"@,
        step.1 matches Action::PrepareRuntime { dir, dir_mode, pid_file: file, pid_mode } ==> dir@
            == "/tmp/rmc"@ && dir_mode == 0o770 && file@ == "/tmp/rmc"@ + "/pid"@ && pid_mode
            == 0o440,
        step.1 matches Action::StartIpc(socket) ==> socket@ == "/tmp/rmc"@ + "/socket"@,
        final(ending).state is Terminating,
        shutdown.exit_code == 1,
        shutdown.notice@ == "Deleted the runtime directory"@,
{
}

/// The events of a server that finds no runtime directory, starts without a fault, and then
/// has `count` connections.
pub open spec fn smooth_run(count: nat) -> Seq<Event> {
    seq![
        Event::Begin,
        Event::RuntimeDirError(IoErrorKind::NotFound),
        Event::RuntimePrepared,
        Event::SignalsStarted,
        Event::IpcStarted,
        Event::Bound,
    ] + Seq::new(count, |i: int| Event::Accepted)
}

/// A server that starts without a fault can have any number of connections, and then waits
/// for the next and says that it is running.
pub proof fn law_smooth_run_goes_on(before: ServerState, count: nat)
    ensures
        possible(smooth_run(count)),
        stage_after(smooth_run(count)) is Accepting,
        state_after(before, smooth_run(count)) is Running,
{
    let events = smooth_run(count);
    assert forall|at: int| 0 <= at < events.len() implies #[trigger] comes_in_turn(
        events,
        at,
    ) by {
        if at > 0 {
            assert(events.take(at).last() == events[at - 1]);
        }
    }
    lemma_state_goes_with_stage(before, events);
}

/// The signals that the server asks for are those that ask it to end, and that of a terminal
/// that has gone.
pub proof fn law_signals_asked_for(signals: Vec<i32>)
    requires
        call_ensures(init_signal_handler, (), signals),
    ensures
        forall|signal: i32| signals@.contains(signal) <==> signal == 1 || signal == 2 || signal
            == 15,
        signals@.len() == 3,
{
    assert(signals@[0] == 2 && signals@[1] == 15 && signals@[2] == 1);
}

/// An event may come at any stage that expects it, whatever the server says of itself, and
/// the server can be told to end by either signal that asks for it.
pub proof fn law_expected_events_may_come(stage: Stage, status: &mut ServerStatus, event: Event)
    requires
        expects(stage, event),
    ensures
        call_requires(run, (stage, status, event)),
        call_requires(signal_handler, (2i32, status)),
        call_requires(signal_handler, (15i32, status)),
{
}

/// An event comes only at the stage whose work it reports on.
pub proof fn law_events_come_at_their_stage(stage: Stage, event: Event)
    requires
        expects(stage, event),
    ensures
        stage is NotStarted <==> event is Begin,
        stage is Inspecting <==> event is RuntimeDirExists || event is RuntimeDirError,
        event is StatusKnown ==> stage is Querying,
        event is RuntimePrepared ==> stage is Preparing,
        stage is StartingSignals <==> event is SignalsStarted || event is SignalsFailed,
        stage is StartingIpc <==> event is IpcStarted || event is IpcFailed,
        event is Bound ==> stage is Binding,
        event is Accepted ==> stage is Accepting,
        event is OutsideFailure ==> stage is Querying || stage is Preparing || stage is Binding
            || stage is Accepting,
{
}

} // verus!

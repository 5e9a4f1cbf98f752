use rmc_server::error::Error;
use rmc_server::ipc::{
    ipc_handler, IPCCommand, IPCResponse, IoErrorKind, IpcAction, IpcEvent,
};
use rmc_server::lifecycle::{
    init_signal_handler, run, signal_handler, Action, Event, Stage, RUNTIME_DIR_DENIED,
    RUNTIME_DIR_EXISTS, SIGHUP, SIGINT, SIGTERM,
};
use rmc_server::status::{ServerState, ServerStatus};

/// Takes a new server through the events, and tells where it ends.
fn after(events: Vec<Event>) -> (Stage, Action, ServerState) {
    let mut status = ServerStatus::default();
    let mut stage = Stage::NotStarted;
    let mut last = Action::Accept;
    for event in events {
        let (next, action) = run(stage, &mut status, event);
        stage = next;
        last = action;
    }
    (stage, last, status.state)
}

fn missing() -> Event {
    Event::RuntimeDirError(IoErrorKind::NotFound)
}

#[test]
fn the_runtime_directory_is_looked_at_first() {
    let (stage, action, state) = after(vec![Event::Begin]);
    assert_eq!((stage, state), (Stage::Inspecting, ServerState::Starting));
    assert!(matches!(action, Action::InspectRuntimeDir(dir) if dir == "/tmp/rmc"));
}

#[test]
fn a_missing_runtime_directory_is_made() {
    let (stage, action, state) = after(vec![Event::Begin, missing()]);
    assert_eq!((stage, state), (Stage::Preparing, ServerState::Starting));
    match action {
        Action::PrepareRuntime { dir, dir_mode, pid_file, pid_mode } => {
            assert_eq!((dir.as_str(), dir_mode), ("/tmp/rmc", 0o770));
            assert_eq!((pid_file.as_str(), pid_mode), ("/tmp/rmc/pid", 0o440));
        }
        other => panic!("{:?}", other),
    }
}

#[test]
fn a_server_that_is_set_up_is_running() {
    let setup = || {
        vec![Event::Begin, missing(), Event::RuntimePrepared, Event::SignalsStarted, Event::IpcStarted]
    };
    let (stage, action, state) = after(setup());
    assert_eq!((stage, state), (Stage::Binding, ServerState::Running));
    assert!(matches!(action, Action::Bind("Initialized. Starting server...")));

    let mut served = setup();
    served.push(Event::Bound);
    served.push(Event::Accepted);
    let (stage, action, state) = after(served);
    assert_eq!((stage, state), (Stage::Accepting, ServerState::Running));
    assert!(matches!(action, Action::ServeAndAccept));
}

#[test]
fn each_part_of_the_setup_comes_in_turn() {
    let (stage, action, state) = after(vec![Event::Begin, missing(), Event::RuntimePrepared]);
    assert_eq!((stage, state), (Stage::StartingSignals, ServerState::Starting));
    assert!(matches!(action, Action::StartSignals));
    let (stage, action, state) =
        after(vec![Event::Begin, missing(), Event::RuntimePrepared, Event::SignalsStarted]);
    assert_eq!((stage, state), (Stage::StartingIpc, ServerState::Starting));
    assert!(matches!(action, Action::StartIpc(socket) if socket == "/tmp/rmc/socket"));
}

#[test]
fn a_server_that_is_there_is_asked_and_left_alone() {
    let (stage, action, _) = after(vec![Event::Begin, Event::RuntimeDirExists]);
    assert_eq!(stage, Stage::Querying);
    assert!(matches!(action, Action::QueryStatus(notice) if notice == RUNTIME_DIR_EXISTS));
    let running = ServerStatus { state: ServerState::Running };
    let (stage, action, _) =
        after(vec![Event::Begin, Event::RuntimeDirExists, Event::StatusKnown(running)]);
    assert_eq!(stage, Stage::Failed);
    assert!(matches!(action, Action::Fail(Error::ServerAlreadyStarted(status)) if status == running));
}

#[test]
fn a_runtime_directory_that_cannot_be_looked_at_ends_the_start() {
    let denied = Event::RuntimeDirError(IoErrorKind::PermissionDenied);
    let (stage, action, _) = after(vec![Event::Begin, denied]);
    assert_eq!(stage, Stage::Failed);
    assert!(matches!(action, Action::FailWithSource(Some(notice)) if notice == RUNTIME_DIR_DENIED));
    let other = Event::RuntimeDirError(IoErrorKind::Other);
    let (stage, action, _) = after(vec![Event::Begin, other]);
    assert_eq!(stage, Stage::Failed);
    assert!(matches!(action, Action::FailWithSource(None)));
}

#[test]
fn a_handler_that_cannot_start_ends_the_start() {
    let reason = || "no luck".to_string();
    let (_, action, state) = after(vec![
        Event::Begin,
        missing(),
        Event::RuntimePrepared,
        Event::SignalsFailed(reason()),
    ]);
    assert_eq!(state, ServerState::Starting);
    assert!(matches!(action, Action::Fail(Error::CouldNotStartSignalHandler(why)) if why == "no luck"));
    let (_, action, state) = after(vec![
        Event::Begin,
        missing(),
        Event::RuntimePrepared,
        Event::SignalsStarted,
        Event::IpcFailed(reason()),
    ]);
    assert_eq!(state, ServerState::Starting);
    assert!(matches!(action, Action::Fail(Error::CouldNotStartIPCHandler(why)) if why == "no luck"));
}

#[test]
fn an_outside_failure_is_passed_on() {
    let (stage, action, _) =
        after(vec![Event::Begin, Event::RuntimeDirExists, Event::OutsideFailure]);
    assert_eq!(stage, Stage::Failed);
    assert!(matches!(action, Action::FailWithSource(None)));
}

#[test]
fn signals_have_their_numbers() {
    assert_eq!(SIGHUP, signal_hook::consts::SIGHUP);
    assert_eq!(SIGINT, signal_hook::consts::SIGINT);
    assert_eq!(SIGTERM, signal_hook::consts::SIGTERM);
    assert_eq!(init_signal_handler(), vec![SIGINT, SIGTERM, SIGHUP]);
}

#[test]
fn a_signal_to_end_ends_the_server() {
    for signal in [SIGTERM, SIGINT] {
        let mut status = ServerStatus { state: ServerState::Running };
        let shutdown = signal_handler(signal, &mut status);
        assert_eq!(status.state, ServerState::Terminating);
        assert_eq!(shutdown.remove_dir, "/tmp/rmc");
        assert_eq!(shutdown.notice, "Deleted the runtime directory");
        assert_eq!(shutdown.exit_code, 1);
    }
}

#[test]
fn a_server_tells_how_far_it_has_come() {
    let mut status = ServerStatus::default();
    let (stage, _) = run(Stage::NotStarted, &mut status, Event::Begin);
    let told = |status: &ServerStatus| match ipc_handler(
        IpcEvent::Command(IPCCommand::GetStatus),
        status,
    ) {
        IpcAction::Reply(response) => response,
        other => panic!("{:?}", other),
    };
    let starting = ServerStatus { state: ServerState::Starting };
    assert_eq!(told(&status), IPCResponse::Status(starting));
    let (stage, _) = run(stage, &mut status, missing());
    let (stage, _) = run(stage, &mut status, Event::RuntimePrepared);
    let (stage, _) = run(stage, &mut status, Event::SignalsStarted);
    assert_eq!(told(&status), IPCResponse::Status(starting));
    run(stage, &mut status, Event::IpcStarted);
    let running = ServerStatus { state: ServerState::Running };
    assert_eq!(told(&status), IPCResponse::Status(running));
}

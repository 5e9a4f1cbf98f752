use rmc_server::error::Error;
use rmc_server::ipc::{
    init_ipc_server, ipc_handler, ClientAction, ClientEvent, IPCCommand, IPCResponse, IoErrorKind,
    IpcAction, IpcEvent,
};
use rmc_server::server::Server;
use rmc_server::status::{ServerState, ServerStatus};

const RUNNING: ServerStatus = ServerStatus { state: ServerState::Running };

#[test]
fn a_response_is_shown_as_debugging_shows_it() {
    for response in [IPCResponse::CannotConnect, IPCResponse::Status(RUNNING)] {
        assert_eq!(response.to_string(), format!("{:?}", response));
    }
}

#[test]
fn a_command_is_read_answered_and_the_next_awaited() {
    assert!(matches!(
        ipc_handler(IpcEvent::Connected, &RUNNING),
        IpcAction::ReceiveCommand(4096)
    ));
    match ipc_handler(IpcEvent::Command(IPCCommand::GetStatus), &RUNNING) {
        IpcAction::Reply(response) => assert_eq!(response, IPCResponse::Status(RUNNING)),
        other => panic!("{:?}", other),
    }
    assert!(matches!(ipc_handler(IpcEvent::Replied, &RUNNING), IpcAction::AwaitConnection));
}

#[test]
fn a_failed_connection_ends_the_waiting() {
    match ipc_handler(IpcEvent::ConnectionFailed("no luck".to_string()), &RUNNING) {
        IpcAction::Stop(message) => {
            assert_eq!(message, "Connection failed for some reason: no luck")
        }
        other => panic!("{:?}", other),
    }
}

#[test]
fn the_server_listens_where_the_client_connects() {
    let socket = init_ipc_server().unwrap();
    assert_eq!(socket, "/tmp/rmc/socket");
    match Server::exec_ipc_message(&IPCCommand::GetStatus, ClientEvent::Begin) {
        ClientAction::Connect(path) => assert_eq!(path, socket),
        other => panic!("{:?}", other),
    }
}

#[test]
fn a_client_sends_receives_and_finishes() {
    let next = |event: ClientEvent| Server::exec_ipc_message(&IPCCommand::GetStatus, event);
    assert!(matches!(next(ClientEvent::Connected), ClientAction::Send(IPCCommand::GetStatus)));
    assert!(matches!(next(ClientEvent::Sent), ClientAction::Receive(4096)));
    match next(ClientEvent::Received(IPCResponse::Status(RUNNING))) {
        ClientAction::Finish(response) => assert_eq!(response, IPCResponse::Status(RUNNING)),
        other => panic!("{:?}", other),
    }
    assert!(matches!(next(ClientEvent::ExchangeFailed), ClientAction::FailWithSource));
}

#[test]
fn no_socket_is_a_response_and_any_other_fault_an_error() {
    let failed = |kind: IoErrorKind| {
        Server::exec_ipc_message(
            &IPCCommand::GetStatus,
            ClientEvent::ConnectFailed(kind, "no luck".to_string()),
        )
    };
    assert!(matches!(
        failed(IoErrorKind::NotFound),
        ClientAction::Finish(IPCResponse::CannotConnect)
    ));
    for kind in [IoErrorKind::PermissionDenied, IoErrorKind::Other] {
        match failed(kind) {
            ClientAction::Fail(Error::CouldNotConnectToSocket(reason)) => {
                assert_eq!(reason, "no luck")
            }
            other => panic!("{:?}", other),
        }
    }
}

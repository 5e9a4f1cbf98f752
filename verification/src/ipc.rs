//! How processes ask a running server about itself.

use vstd::prelude::*;

use crate::error::Error;
use crate::server::{runtime_path, Server};
use crate::status::{state_name, ServerState, ServerStatus};
use crate::text::join;

verus! {

/// How many bytes of a message are read at most.
pub const MESSAGE_LIMIT: usize = 4096;

/// What can be asked of a running server.
#[derive(Debug, Clone, Copy, PartialEq, Eq, Structural)]
pub enum IPCCommand {
    GetStatus,
}

/// What comes back for a command.
#[derive(Debug, Clone, Copy, PartialEq, Eq, Structural)]
pub enum IPCResponse {
    CannotConnect,
    Status(ServerStatus),
}

/// The kinds of input and output errors that are told apart.
#[derive(Debug, Clone, Copy, PartialEq, Eq, Structural)]
pub enum IoErrorKind {
    NotFound,
    PermissionDenied,
    Other,
}

/// A response as it is shown, on one line.
pub open spec fn response_text(response: IPCResponse) -> Seq<char> {
    match response {
        IPCResponse::CannotConnect => "CannotConnect"@,
        IPCResponse::Status(status) => "Status(ServerStatus { state: "@ + state_name(status.state)
            + " })"@,
    }
}

impl IPCResponse {
    /// The response as it is shown, on one line.
    pub fn to_string(&self) -> (text: String)
        ensures
            text@ == response_text(*self),
    {
        match self {
            IPCResponse::CannotConnect => "CannotConnect".to_owned(),
            IPCResponse::Status(status) => {
                let opened = join("Status(ServerStatus { state: ", status.state.name());
                join(opened.as_str(), " })")
            },
        }
    }
}

/// What happens while a server waits for commands.
#[derive(Debug)]
pub enum IpcEvent {
    /// A process has connected.
    Connected,
    /// The process has sent a command.
    Command(IPCCommand),
    /// The response has been sent.
    Replied,
    /// A connection could not be made, for the reason given.
    ConnectionFailed(String),
}

/// What a server that waits for commands does next.
#[derive(Debug)]
pub enum IpcAction {
    /// Read a command of so many bytes at most.
    ReceiveCommand(usize),
    /// Send the response.
    Reply(IPCResponse),
    /// Wait for the next process to connect.
    AwaitConnection,
    /// Wait no more, and tell why.
    Stop(String),
}

/// What a server whose status is `status` answers to a command.
pub open spec fn reply_to(command: IPCCommand, status: ServerStatus) -> IPCResponse {
    match command {
        IPCCommand::GetStatus => IPCResponse::Status(status),
    }
}

/// What a server that waits for commands does next.
pub fn ipc_handler(event: IpcEvent, status: &ServerStatus) -> (action: IpcAction)
    ensures
        match event {
            IpcEvent::Connected => action == IpcAction::ReceiveCommand(MESSAGE_LIMIT),
            IpcEvent::Command(command) => action == IpcAction::Reply(reply_to(command, *status)),
            IpcEvent::Replied => action == IpcAction::AwaitConnection,
            IpcEvent::ConnectionFailed(reason) => action matches IpcAction::Stop(message)
                && message@ == "Connection failed for some reason: "@ + reason@,
        },
{
    match event {
        IpcEvent::Connected => IpcAction::ReceiveCommand(MESSAGE_LIMIT),
        IpcEvent::Command(command) => match command {
            IPCCommand::GetStatus => IpcAction::Reply(IPCResponse::Status(*status)),
        },
        IpcEvent::Replied => IpcAction::AwaitConnection,
        IpcEvent::ConnectionFailed(reason) => IpcAction::Stop(
            join("Connection failed for some reason: ", reason.as_str()),
        ),
    }
}

/// The socket that a server takes commands at.
pub fn init_ipc_server() -> (socket: Result<String, Error>)
    ensures
        socket matches Ok(path) && path@ == runtime_path() + "/socket"@,
{
    match Server::runtime_dir() {
        Ok(runtime_dir) => Ok(join(runtime_dir.as_str(), "/socket")),
        Err(error) => Err(error),
    }
}

/// What happens while a process sends a command to a server.
#[derive(Debug)]
pub enum ClientEvent {
    /// There is a command to send.
    Begin,
    /// The socket is connected.
    Connected,
    /// The socket could not be connected: the kind of error, and what it says.
    ConnectFailed(IoErrorKind, String),
    /// The command has been sent.
    Sent,
    /// The response is there.
    Received(IPCResponse),
    /// Sending or receiving failed.
    ExchangeFailed,
}

/// What a process that sends a command to a server does next.
#[derive(Debug)]
pub enum ClientAction {
    /// Connect to the socket.
    Connect(String),
    /// Send the command.
    Send(IPCCommand),
    /// Read a response of so many bytes at most.
    Receive(usize),
    /// The response.
    Finish(IPCResponse),
    /// The command failed.
    Fail(Error),
    /// The command failed with the error that has just come up.
    FailWithSource,
}

impl Server {
    /// What a process that sends `command` to a server does next. A server without a socket
    /// is one that cannot be reached, which is a response, not an error.
    pub fn exec_ipc_message(command: &IPCCommand, event: ClientEvent) -> (action: ClientAction)
        ensures
            match event {
                ClientEvent::Begin => action matches ClientAction::Connect(path) && path@
                    == runtime_path() + "/socket"@,
                ClientEvent::Connected => action == ClientAction::Send(*command),
                ClientEvent::ConnectFailed(kind, reason) => action == if kind
                    == IoErrorKind::NotFound {
                    ClientAction::Finish(IPCResponse::CannotConnect)
                } else {
                    ClientAction::Fail(Error::CouldNotConnectToSocket(reason))
                },
                ClientEvent::Sent => action == ClientAction::Receive(MESSAGE_LIMIT),
                ClientEvent::Received(response) => action == ClientAction::Finish(response),
                ClientEvent::ExchangeFailed => action == ClientAction::FailWithSource,
            },
    {
        match event {
            ClientEvent::Begin => match Server::socket_file() {
                Ok(socket_file) => ClientAction::Connect(socket_file),
                Err(error) => ClientAction::Fail(error),
            },
            ClientEvent::Connected => ClientAction::Send(*command),
            ClientEvent::ConnectFailed(kind, reason) => match kind {
                IoErrorKind::NotFound => ClientAction::Finish(IPCResponse::CannotConnect),
                _ => ClientAction::Fail(Error::CouldNotConnectToSocket(reason)),
            },
            ClientEvent::Sent => ClientAction::Receive(MESSAGE_LIMIT),
            ClientEvent::Received(response) => ClientAction::Finish(response),
            ClientEvent::ExchangeFailed => ClientAction::FailWithSource,
        }
    }
}

/// A server that is asked for its status tells the status that it has, and the process that
/// asked ends with exactly that status.
pub proof fn law_status_comes_back(
    status: ServerStatus,
    told: IpcAction,
    command: &IPCCommand,
    response: IPCResponse,
    ended: ClientAction,
)
    requires
        call_ensures(ipc_handler, (IpcEvent::Command(IPCCommand::GetStatus), &status), told),
        told == IpcAction::Reply(response),
        call_ensures(
            Server::exec_ipc_message,
            (command, ClientEvent::Received(response)),
            ended,
        ),
    ensures
        ended == ClientAction::Finish(IPCResponse::Status(status)),
{
}

/// A command is always answered, a process that connects is always heard, and after each
/// answer the next process is waited for. Only a failed connection ends the waiting, with
/// its reason told to the end.
pub proof fn law_commands_are_served_until_a_failure(
    event: IpcEvent,
    status: &ServerStatus,
    action: IpcAction,
)
    requires
        call_ensures(ipc_handler, (event, status), action),
    ensures
        action is Reply <==> event is Command,
        action matches IpcAction::Reply(response) ==> response == IPCResponse::Status(*status),
        action is ReceiveCommand <==> event is Connected,
        action matches IpcAction::ReceiveCommand(limit) ==> limit == 4096,
        action is AwaitConnection <==> event is Replied,
        action is Stop <==> event is ConnectionFailed,
        event matches IpcEvent::ConnectionFailed(reason) ==> (
        action matches IpcAction::Stop(message) && message@
            == "Connection failed for some reason: "@ + reason@),
{
}

/// A process sends the command that it was given once it is connected, then reads as many
/// bytes as a server does, and ends with the response that came. A missing socket is the
/// response that the server cannot be reached; every other failure is an error, with its
/// reason where it is one of connecting.
pub proof fn law_command_is_sent_and_answered(
    command: &IPCCommand,
    event: ClientEvent,
    action: ClientAction,
)
    requires
        call_ensures(Server::exec_ipc_message, (command, event), action),
    ensures
        action is Connect <==> event is Begin,
        action is Send <==> event is Connected,
        action matches ClientAction::Send(sent) ==> sent == *command,
        action is Receive <==> event is Sent,
        action matches ClientAction::Receive(limit) ==> limit == 4096,
        event matches ClientEvent::Received(response) ==> action == ClientAction::Finish(response),
        event matches ClientEvent::ConnectFailed(kind, reason) ==> if kind is NotFound {
            action == ClientAction::Finish(IPCResponse::CannotConnect)
        } else {
            action == ClientAction::Fail(Error::CouldNotConnectToSocket(reason))
        },
        action is FailWithSource <==> event is ExchangeFailed,
{
}

/// The socket that a server takes commands at is the one that its socket file names and the
/// one that a process connects to.
pub proof fn law_one_socket(
    command: &IPCCommand,
    served: Result<String, Error>,
    named: Result<String, Error>,
    connecting: ClientAction,
)
    requires
        call_ensures(init_ipc_server, (), served),
        call_ensures(Server::socket_file, (), named),
        call_ensures(Server::exec_ipc_message, (command, ClientEvent::Begin), connecting),
    ensures
        served matches Ok(socket) && socket@ == "/tmp/rmc"@ + "/socket"@ && (
        named matches Ok(file) && file@ == socket@) && (
        connecting matches ClientAction::Connect(path) && path@ == socket@),
{
}

/// A shown response holds the name of the state that it tells of.
pub proof fn law_response_shows_its_state(
    response: IPCResponse,
    name: &'static str,
    text: String,
)
    requires
        call_ensures(IPCResponse::to_string, (&response,), text),
        response matches IPCResponse::Status(status) ==> call_ensures(
            ServerState::name,
            (&status.state,),
            name,
        ),
    ensures
        response is CannotConnect ==> text@ == "CannotConnect"@,
        response is Status ==> text@ == "Status(ServerStatus { state: "@ + name@ + " })"@,
{
}

} // verus!

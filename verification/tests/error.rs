use rmc_server::error::Error;
use rmc_server::ipc::IPCResponse;
use rmc_server::status::{ServerState, ServerStatus};

fn told(error: Error) -> String {
    error.message("/home/user")
}

#[test]
fn each_error_is_told() {
    let reason = || "no luck".to_string();
    let running = ServerStatus { state: ServerState::Running };
    assert_eq!(
        told(Error::ServerAlreadyStarted(running)),
        "cannot start a server that is already running. \n                    Server status at time of command: ServerStatus {\n    state: Running,\n}"
    );
    assert_eq!(
        told(Error::CannotFindExecutable),
        "Could not find executable `rmc` in working directory: /home/user"
    );
    assert_eq!(
        told(Error::InaccessibleSharedConfig(reason())),
        "Could not access the shared config. Reason: no luck"
    );
    assert_eq!(
        told(Error::InaccessibleUserConfig(reason())),
        "Could not access the user config. Reason: no luck"
    );
    assert_eq!(told(Error::MalformedCmdline("--x".to_string())), "`--x` is not a valid token");
    assert_eq!(
        told(Error::InvalidIPCReponse(IPCResponse::Status(running), IPCResponse::CannotConnect)),
        "IPC (Inter-Process Communication) Response was invalid. Expected: Status(ServerStatus { state: Running }). Received: CannotConnect"
    );
    assert_eq!(
        told(Error::CouldNotStartSignalHandler(reason())),
        "Could not initialize the signal handler. Reason: no luck"
    );
    assert_eq!(
        told(Error::CouldNotStartIPCHandler(reason())),
        "Could not initialize the IPC handler. If this is because of a missing file, it can sometimes be fixed by running `rmc server repair`. Reason: no luck"
    );
    assert_eq!(told(Error::NoHomeEnvironmentVariable), "Could not find $HOME");
    assert_eq!(
        told(Error::CouldNotConnectToSocket(reason())),
        "Could not connect to socket file. Reason: no luck"
    );
    assert_eq!(
        told(Error::UnknownUsage("rmc dance".to_string())),
        "The command: `rmc dance` is not known to this program"
    );
    assert_eq!(
        told(Error::CouldNotStartServer(reason())),
        "Could not start the server: Reason: no luck"
    );
    assert_eq!(
        told(Error::ConfigParseError("/etc/rmc".to_string(), reason())),
        "Error when parsing config at: /etc/rmc. Error: no luck"
    );
}

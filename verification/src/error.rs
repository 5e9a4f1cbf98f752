//! What can go wrong, and how it is told.

use vstd::prelude::*;

use crate::ipc::{response_text, IPCResponse};
use crate::server::EXECUTABLE_NAME;
use crate::status::{status_text, ServerStatus};
use crate::text::join;

verus! {

/// What can go wrong. Where another error is the reason, the variant holds what that error
/// says.
#[derive(Debug)]
pub enum Error {
    ServerAlreadyStarted(ServerStatus),
    CouldNotStartServer(String),
    ConfigParseError(String, String),
    CannotFindExecutable,
    InaccessibleSharedConfig(String),
    InaccessibleUserConfig(String),
    UnknownUsage(String),
    MalformedCmdline(String),
    InvalidIPCReponse(IPCResponse, IPCResponse),
    CouldNotConnectToSocket(String),
    CouldNotStartSignalHandler(String),
    CouldNotStartIPCHandler(String),
    NoHomeEnvironmentVariable,
}

/// What is told of an error by a process whose working directory is `working_dir`.
pub open spec fn error_text(error: Error, working_dir: Seq<char>) -> Seq<char> {
    match error {
        Error::ServerAlreadyStarted(current_status) =>
            "cannot start a server that is already running. \n                    Server status at time of command: "@
            + status_text(current_status),
        Error::CannotFindExecutable => "Could not find executable `"@ + EXECUTABLE_NAME@
            + "` in working directory: "@ + working_dir,
        Error::InaccessibleSharedConfig(source) =>
            "Could not access the shared config. Reason: "@ + source@,
        Error::InaccessibleUserConfig(source) => "Could not access the user config. Reason: "@
            + source@,
        Error::MalformedCmdline(token) => "`"@ + token@ + "` is not a valid token"@,
        Error::InvalidIPCReponse(expected, actual) =>
            "IPC (Inter-Process Communication) Response was invalid. Expected: "@ + response_text(
            expected,
        ) + ". Received: "@ + response_text(actual),
        Error::CouldNotStartSignalHandler(source) =>
            "Could not initialize the signal handler. Reason: "@ + source@,
        Error::CouldNotStartIPCHandler(source) =>
            "Could not initialize the IPC handler. If this is because of a missing file, it can sometimes be fixed by running `rmc server repair`. Reason: "@
            + source@,
        Error::NoHomeEnvironmentVariable => "Could not find $HOME"@,
        Error::CouldNotConnectToSocket(source) =>
            "Could not connect to socket file. Reason: "@ + source@,
        Error::UnknownUsage(cmdline) => "The command: `"@ + cmdline@
            + "` is not known to this program"@,
        Error::CouldNotStartServer(reason) => "Could not start the server: Reason: "@ + reason@,
        Error::ConfigParseError(location, source) => "Error when parsing config at: "@ + location@
            + ". Error: "@ + source@,
    }
}

/// `first`, `second` and `third`, one behind the other.
fn join3(first: &str, second: &str, third: &str) -> (joined: String)
    ensures
        joined@ == first@ + second@ + third@,
{
    let start = join(first, second);
    join(start.as_str(), third)
}

impl Error {
    /// What is told of the error by a process whose working directory is `working_dir`.
    pub fn message(&self, working_dir: &str) -> (text: String)
        ensures
            text@ == error_text(*self, working_dir@),
    {
        match self {
            Error::ServerAlreadyStarted(current_status) => {
                let status = current_status.to_string();
                join(
                    "cannot start a server that is already running. \n                    Server status at time of command: ",
                    status.as_str(),
                )
            },
            Error::CannotFindExecutable => {
                let start = join3(
                    "Could not find executable `",
                    EXECUTABLE_NAME,
                    "` in working directory: ",
                );
                join(start.as_str(), working_dir)
            },
            Error::InaccessibleSharedConfig(source) => join(
                "Could not access the shared config. Reason: ",
                source.as_str(),
            ),
            Error::InaccessibleUserConfig(source) => join(
                "Could not access the user config. Reason: ",
                source.as_str(),
            ),
            Error::MalformedCmdline(token) => join3(
                "`",
                token.as_str(),
                "` is not a valid token",
            ),
            Error::InvalidIPCReponse(expected, actual) => {
                let expected = expected.to_string();
                let actual = actual.to_string();
                let start = join3(
                    "IPC (Inter-Process Communication) Response was invalid. Expected: ",
                    expected.as_str(),
                    ". Received: ",
                );
                join(start.as_str(), actual.as_str())
            },
            Error::CouldNotStartSignalHandler(source) => join(
                "Could not initialize the signal handler. Reason: ",
                source.as_str(),
            ),
            Error::CouldNotStartIPCHandler(source) => join(
                "Could not initialize the IPC handler. If this is because of a missing file, it can sometimes be fixed by running `rmc server repair`. Reason: ",
                source.as_str(),
            ),
            Error::NoHomeEnvironmentVariable => "Could not find $HOME".to_owned(),
            Error::CouldNotConnectToSocket(source) => join(
                "Could not connect to socket file. Reason: ",
                source.as_str(),
            ),
            Error::UnknownUsage(cmdline) => join3(
                "The command: `",
                cmdline.as_str(),
                "` is not known to this program",
            ),
            Error::CouldNotStartServer(reason) => join(
                "Could not start the server: Reason: ",
                reason.as_str(),
            ),
            Error::ConfigParseError(location, source) => {
                let start = join3(
                    "Error when parsing config at: ",
                    location.as_str(),
                    ". Error: ",
                );
                join(start.as_str(), source.as_str())
            },
        }
    }
}

/// An error that has another as its reason is told with that reason at the end, whole.
pub proof fn law_reason_is_told_whole(error: Error, working_dir: &str, text: String)
    requires
        call_ensures(Error::message, (&error, working_dir), text),
    ensures
        error matches Error::InaccessibleSharedConfig(reason) ==> text@
            == "Could not access the shared config. Reason: "@ + reason@,
        error matches Error::InaccessibleUserConfig(reason) ==> text@
            == "Could not access the user config. Reason: "@ + reason@,
        error matches Error::CouldNotStartSignalHandler(reason) ==> text@
            == "Could not initialize the signal handler. Reason: "@ + reason@,
        error matches Error::CouldNotStartIPCHandler(reason) ==> text@
            == "Could not initialize the IPC handler. If this is because of a missing file, it can sometimes be fixed by running `rmc server repair`. Reason: "@
            + reason@,
        error matches Error::CouldNotConnectToSocket(reason) ==> text@
            == "Could not connect to socket file. Reason: "@ + reason@,
        error matches Error::CouldNotStartServer(reason) ==> text@
            == "Could not start the server: Reason: "@ + reason@,
        error matches Error::ConfigParseError(location, reason) ==> text@
            == "Error when parsing config at: "@ + location@ + ". Error: "@ + reason@,
{
}

/// What was given to the program and not understood is told between back quotes, and so is
/// the executable that was not found, with the directory that was searched.
pub proof fn law_what_was_given_is_quoted(error: Error, working_dir: &str, text: String)
    requires
        call_ensures(Error::message, (&error, working_dir), text),
    ensures
        error matches Error::MalformedCmdline(token) ==> text@ == "`"@ + token@
            + "` is not a valid token"@,
        error matches Error::UnknownUsage(cmdline) ==> text@ == "The command: `"@ + cmdline@
            + "` is not known to this program"@,
        error is CannotFindExecutable ==> text@ == "Could not find executable `"@ + "rmc"@
            + "` in working directory: "@ + working_dir@,
        error is NoHomeEnvironmentVariable ==> text@ == "Could not find $HOME"@,
{
}

/// A server that is already there is told with its status as it is shown, and a response
/// that was not expected with both responses as they are shown, the expected one first.
pub proof fn law_status_and_responses_are_told_as_shown(
    error: Error,
    working_dir: &str,
    text: String,
    status: String,
    wanted: String,
    received: String,
)
    requires
        call_ensures(Error::message, (&error, working_dir), text),
        error matches Error::ServerAlreadyStarted(current) ==> call_ensures(
            ServerStatus::to_string,
            (&current,),
            status,
        ),
        error matches Error::InvalidIPCReponse(expected, actual) ==> call_ensures(
            IPCResponse::to_string,
            (&expected,),
            wanted,
        ) && call_ensures(IPCResponse::to_string, (&actual,), received),
    ensures
        error is ServerAlreadyStarted ==> text@
            == "cannot start a server that is already running. \n                    Server status at time of command: "@
            + status@,
        error is InvalidIPCReponse ==> text@
            == "IPC (Inter-Process Communication) Response was invalid. Expected: "@ + wanted@
            + ". Received: "@ + received@,
{
}

/// Where a process runs makes a difference only to the error that an executable was not
/// found there.
pub proof fn law_working_dir_told_only_where_searched(
    error: Error,
    working_dir: &str,
    other_dir: &str,
    text: String,
    other_text: String,
)
    requires
        call_ensures(Error::message, (&error, working_dir), text),
        call_ensures(Error::message, (&error, other_dir), other_text),
    ensures
        !(error is CannotFindExecutable) ==> text@ == other_text@,
        error is CannotFindExecutable && text@ == other_text@ ==> working_dir@ == other_dir@,
{
    if error is CannotFindExecutable && text@ == other_text@ {
        let front = "Could not find executable `"@ + EXECUTABLE_NAME@ + "` in working directory: "@;
        assert(text@.skip(front.len() as int) =~= working_dir@);
        assert(other_text@.skip(front.len() as int) =~= other_dir@);
    }
}

} // verus!

//! Where the server keeps its files.

use vstd::prelude::*;

use crate::error::Error;
use crate::text::join;

verus! {

pub const EXECUTABLE_NAME: &'static str = "rmc";

/// The server of this system.
#[derive(Debug)]
pub struct Server {

}

/// The directory of sockets and process numbers.
pub open spec fn runtime_path() -> Seq<char> {
    "/tmp/rmc"@
}

impl Server {
    pub const STARTING_MESSAGE: &'static str = "Initialized. Starting server...";

    /// Used for config files that are shared across the whole system.
    pub const SYSTEM_CONFIG_DIR: &'static str = "/etc/rmc";

    /// The file that holds the number of the server's process.
    pub fn pid_file() -> (path: Result<String, Error>)
        ensures
            path matches Ok(file) && file@ == runtime_path() + "/pid"@,
    {
        match Server::runtime_dir() {
            Ok(runtime_dir) => Ok(join(runtime_dir.as_str(), "/pid")),
            Err(error) => Err(error),
        }
    }

    /// The socket that the server takes commands at.
    pub fn socket_file() -> (path: Result<String, Error>)
        ensures
            path matches Ok(file) && file@ == runtime_path() + "/socket"@,
    {
        match Server::runtime_dir() {
            Ok(runtime_dir) => Ok(join(runtime_dir.as_str(), "/socket")),
            Err(error) => Err(error),
        }
    }

    /// Used for runtime files like sockets and process numbers.
    pub fn runtime_dir() -> (path: Result<String, Error>)
        ensures
            path matches Ok(dir) && dir@ == runtime_path(),
    {
        Ok("/tmp/rmc".to_owned())
    }

    /// The directory where the config files of a user are kept, given what the environment
    /// holds under `XDG_CONFIG_HOME` and `HOME`.
    pub fn user_config_dir(xdg_config_home: Option<&str>, home: Option<&str>) -> (path: Result<
        String,
        Error,
    >)
        ensures
            match (xdg_config_home, home) {
                (Some(config_home), _) => path matches Ok(dir) && dir@ == config_home@ + "/rmc"@,
                (None, Some(home)) => path matches Ok(dir) && dir@ == home@ + "/.config/rmc"@,
                (None, None) => path == Err::<String, Error>(Error::NoHomeEnvironmentVariable),
            },
    {
        match xdg_config_home {
            Some(config_home) => Ok(join(config_home, "/rmc")),
            None => match home {
                Some(home) => Ok(join(home, "/.config/rmc")),
                None => Err(Error::NoHomeEnvironmentVariable),
            },
        }
    }
}

/// The config directory of a user lies below `XDG_CONFIG_HOME` where that is set, whatever
/// `HOME` is, and else where it would lie if `XDG_CONFIG_HOME` were `.config` below `HOME`.
/// There is none only where neither is set.
pub proof fn law_user_config_dir(
    config_home: &str,
    home: &str,
    other_home: Option<&str>,
    with_config_home: Result<String, Error>,
    with_home: Result<String, Error>,
    with_neither: Result<String, Error>,
)
    requires
        call_ensures(Server::user_config_dir, (Some(config_home), other_home), with_config_home),
        call_ensures(Server::user_config_dir, (None::<&str>, Some(home)), with_home),
        call_ensures(Server::user_config_dir, (None::<&str>, None::<&str>), with_neither),
    ensures
        with_config_home matches Ok(dir) && dir@ == config_home@ + "/rmc"@,
        with_home is Ok,
        config_home@ == home@ + "/.config"@ ==> with_home->Ok_0@ == with_config_home->Ok_0@,
        with_neither matches Err(error) && error is NoHomeEnvironmentVariable,
{
    reveal_strlit("/rmc");
    reveal_strlit("/.config");
    reveal_strlit("/.config/rmc");
    assert("/.config/rmc"@ =~= "/.config"@ + "/rmc"@);
    assert(home@ + "/.config/rmc"@ =~= home@ + "/.config"@ + "/rmc"@);
}

} // verus!

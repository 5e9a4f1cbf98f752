//! What the server is doing.

use vstd::prelude::*;

use crate::text::join;

verus! {

/// What the server is doing.
#[derive(Debug, Clone, Copy, PartialEq, Eq, Structural)]
pub enum ServerState {
    Placeholder,
    Unreachable,
    Stopped,
    Starting,
    Running,
    Terminating,
}

/// What the server tells of itself.
#[derive(Debug, Clone, Copy, PartialEq, Eq, Structural)]
pub struct ServerStatus {
    pub state: ServerState,
}

/// The name of a state.
pub open spec fn state_name(state: ServerState) -> Seq<char> {
    match state {
        ServerState::Placeholder => "Placeholder"@,
        ServerState::Unreachable => "Unreachable"@,
        ServerState::Stopped => "Stopped"@,
        ServerState::Starting => "Starting"@,
        ServerState::Running => "Running"@,
        ServerState::Terminating => "Terminating"@,
    }
}

impl ServerState {
    /// The name of the state.
    pub fn name(&self) -> (name: &'static str)
        ensures
            name@ == state_name(*self),
    {
        match self {
            ServerState::Placeholder => "Placeholder",
            ServerState::Unreachable => "Unreachable",
            ServerState::Stopped => "Stopped",
            ServerState::Starting => "Starting",
            ServerState::Running => "Running",
            ServerState::Terminating => "Terminating",
        }
    }
}

impl Default for ServerStatus {
    /// A server that nothing is known of cannot be reached.
    fn default() -> (status: Self)
        ensures
            status.state == ServerState::Unreachable,
    {
        ServerStatus { state: ServerState::Unreachable }
    }
}

/// A status as it is shown, one field to a line.
pub open spec fn status_text(status: ServerStatus) -> Seq<char> {
    "ServerStatus {\n    state: "@ + state_name(status.state) + ",\n}"@
}

impl ServerStatus {
    /// The status of a server that cannot be reached.
    pub fn unreachable() -> (status: ServerStatus)
        ensures
            status == (ServerStatus { state: ServerState::Unreachable }),
    {
        ServerStatus { state: ServerState::Unreachable }
    }

    /// The status as it is shown, one field to a line.
    pub fn to_string(&self) -> (text: String)
        ensures
            text@ == status_text(*self),
    {
        let opened = join("ServerStatus {\n    state: ", self.state.name());
        join(opened.as_str(), ",\n}")
    }
}

/// Two states that are told by one name are one state.
pub proof fn law_names_tell_states_apart(
    first: ServerState,
    second: ServerState,
    first_name: &'static str,
    second_name: &'static str,
)
    requires
        call_ensures(ServerState::name, (&first,), first_name),
        call_ensures(ServerState::name, (&second,), second_name),
        first_name@ == second_name@,
    ensures
        first == second,
{
    reveal_strlit("Placeholder");
    reveal_strlit("Unreachable");
    reveal_strlit("Stopped");
    reveal_strlit("Starting");
    reveal_strlit("Running");
    reveal_strlit("Terminating");
    assert(state_name(first).len() == state_name(second).len());
    assert(state_name(first)[0] == state_name(second)[0]);
    match first {
        ServerState::Placeholder => assert(second is Placeholder),
        ServerState::Unreachable => assert(second is Unreachable),
        ServerState::Stopped => assert(second is Stopped),
        ServerState::Starting => assert(second is Starting),
        ServerState::Running => assert(second is Running),
        ServerState::Terminating => assert(second is Terminating),
    }
}

/// The shown status is the name of its state between what is the same for every status.
pub proof fn law_status_shows_its_state(status: ServerStatus, name: &'static str, text: String)
    requires
        call_ensures(ServerState::name, (&status.state,), name),
        call_ensures(ServerStatus::to_string, (&status,), text),
    ensures
        text@ == "ServerStatus {\n    state: "@ + name@ + ",\n}"@,
        status.state is Starting ==> name@ == "Starting"@,
        status.state is Running ==> name@ == "Running"@,
        status.state is Stopped ==> name@ == "Stopped"@,
        status.state is Terminating ==> name@ == "Terminating"@,
        status.state is Unreachable ==> name@ == "Unreachable"@,
        status.state is Placeholder ==> name@ == "Placeholder"@,
{
}

/// A server that nothing is known of is one that cannot be reached, however its status is
/// made.
pub proof fn law_unknown_server_is_unreachable(made: ServerStatus, by_default: ServerStatus)
    requires
        call_ensures(ServerStatus::unreachable, (), made),
        call_ensures(<ServerStatus as Default>::default, (), by_default),
    ensures
        made == by_default,
        made.state is Unreachable,
{
}

} // verus!

use rmc_server::status::{ServerState, ServerStatus};

const STATES: [ServerState; 6] = [
    ServerState::Placeholder,
    ServerState::Unreachable,
    ServerState::Stopped,
    ServerState::Starting,
    ServerState::Running,
    ServerState::Terminating,
];

#[test]
fn an_unknown_server_cannot_be_reached() {
    assert_eq!(ServerStatus::default().state, ServerState::Unreachable);
    assert_eq!(ServerStatus::unreachable(), ServerStatus::default());
}

#[test]
fn a_status_is_shown_one_field_to_a_line() {
    let status = ServerStatus { state: ServerState::Running };
    assert_eq!(status.to_string(), "ServerStatus {\n    state: Running,\n}");
}

#[test]
fn a_status_is_shown_as_debugging_shows_it() {
    for state in STATES {
        let status = ServerStatus { state };
        assert_eq!(status.to_string(), format!("{:#?}", status));
        assert_eq!(state.name(), format!("{:?}", state));
    }
}

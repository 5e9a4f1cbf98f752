use rmc_server::error::Error;
use rmc_server::server::{Server, EXECUTABLE_NAME};

#[test]
fn runtime_files_lie_in_the_runtime_directory() {
    assert_eq!(Server::runtime_dir().unwrap(), "/tmp/rmc");
    assert_eq!(Server::pid_file().unwrap(), "/tmp/rmc/pid");
    assert_eq!(Server::socket_file().unwrap(), "/tmp/rmc/socket");
}

#[test]
fn the_config_home_comes_before_the_home() {
    assert_eq!(Server::user_config_dir(Some("/cfg"), Some("/home/u")).unwrap(), "/cfg/rmc");
    assert_eq!(Server::user_config_dir(Some("/cfg"), None).unwrap(), "/cfg/rmc");
    assert_eq!(
        Server::user_config_dir(None, Some("/home/u")).unwrap(),
        "/home/u/.config/rmc"
    );
}

#[test]
fn without_a_home_there_is_no_user_config() {
    assert!(matches!(
        Server::user_config_dir(None, None),
        Err(Error::NoHomeEnvironmentVariable)
    ));
}

#[test]
fn the_server_has_its_names() {
    assert_eq!(EXECUTABLE_NAME, "rmc");
    assert_eq!(Server::STARTING_MESSAGE, "Initialized. Starting server...");
    assert_eq!(Server::SYSTEM_CONFIG_DIR, "/etc/rmc");
}

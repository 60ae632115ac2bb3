use mullvad_daemon::errors::{
    Error, ErrorKind, FAILED_TO_START_SERVER, SERVER_EXITED_UNEXPECTEDLY, UNABLE_TO_KILL_TUNNEL,
    UNABLE_TO_START_TUNNEL,
};

#[test]
fn messages_are_the_fixed_texts() {
    assert_eq!("Unable to start tunnel monitor", UNABLE_TO_START_TUNNEL);
    assert_eq!("Unable to kill tunnel", UNABLE_TO_KILL_TUNNEL);
    assert_eq!("Failed to start server", FAILED_TO_START_SERVER);
    assert_eq!("Server exited unexpectedly", SERVER_EXITED_UNEXPECTEDLY);
}

#[test]
fn descriptions_by_kind() {
    assert_eq!(
        "Client is in an invalid state for the requested operation",
        ErrorKind::InvalidState.description()
    );
    assert_eq!("Error in the tunnel monitor", ErrorKind::TunnelError("x").description());
    assert_eq!(
        "Error in the management interface",
        ErrorKind::ManagementInterfaceError("x").description()
    );
}

#[test]
fn display_lines_by_kind() {
    assert_eq!(
        "Client is in an invalid state for the requested operation",
        ErrorKind::InvalidState.message()
    );
    assert_eq!(
        "Tunnel monitor error: Unable to kill tunnel",
        ErrorKind::TunnelError(UNABLE_TO_KILL_TUNNEL).message()
    );
    assert_eq!(
        "Management interface error: Failed to start server",
        ErrorKind::ManagementInterfaceError(FAILED_TO_START_SERVER).message()
    );
}

#[test]
fn constructors_fill_kind_and_cause() {
    assert_eq!(Error { kind: ErrorKind::InvalidState, cause: None }, Error::invalid_state());
    assert_eq!(
        Error {
            kind: ErrorKind::TunnelError("Unable to start tunnel monitor"),
            cause: Some("no route".to_string()),
        },
        Error::tunnel(UNABLE_TO_START_TUNNEL, Some("no route".to_string()))
    );
    assert_eq!(
        Error { kind: ErrorKind::ManagementInterfaceError("Failed to start server"), cause: None },
        Error::management_interface(FAILED_TO_START_SERVER, None)
    );
}

#[test]
fn error_line_is_that_of_its_kind() {
    let error = Error::tunnel(UNABLE_TO_START_TUNNEL, Some("no route".to_string()));
    assert_eq!("Tunnel monitor error: Unable to start tunnel monitor", error.message());
    assert_eq!(
        "Management interface error: Server exited unexpectedly",
        Error::management_interface(SERVER_EXITED_UNEXPECTEDLY, None).message()
    );
}

use serial_console::report::{
    exit_code, open_failure_message, outcome_message, EXIT_FAILURE, EXIT_OK,
};
use serial_console::session::SessionOutcome;

#[test]
fn clean_ends_exit_zero() {
    assert_eq!(exit_code(&SessionOutcome::UserTerminated), 0);
    assert_eq!(exit_code(&SessionOutcome::DeviceDisconnected), EXIT_OK);
}

#[test]
fn failures_exit_nonzero() {
    assert_ne!(exit_code(&SessionOutcome::TransportError("x".to_string())), 0);
    assert_eq!(exit_code(&SessionOutcome::PeerThreadLost), EXIT_FAILURE);
}

#[test]
fn outcome_messages() {
    assert_eq!(outcome_message(&SessionOutcome::UserTerminated), None);
    assert_eq!(
        outcome_message(&SessionOutcome::DeviceDisconnected),
        Some("Device disconnected".to_string())
    );
    assert_eq!(
        outcome_message(&SessionOutcome::PeerThreadLost),
        Some("Error: Stdin reading thread stopped.".to_string())
    );
    assert_eq!(
        outcome_message(&SessionOutcome::TransportError("Input/output error".to_string())),
        Some("Input/output error".to_string())
    );
}

#[test]
fn missing_device_named_in_message() {
    let kind = serialport::ErrorKind::Io(std::io::ErrorKind::NotFound);
    let m = open_failure_message("/dev/ttyACM9", kind, "No such file or directory");
    assert_eq!(m, "Device not found: /dev/ttyACM9");
    assert_ne!(EXIT_FAILURE, 0);
}

#[test]
fn other_open_failure_passes_description() {
    let m = open_failure_message("/dev/ttyS0", serialport::ErrorKind::NoDevice, "busy");
    assert_eq!(m, "Error opening port, please report this: busy");
    let io = serialport::ErrorKind::Io(std::io::ErrorKind::PermissionDenied);
    let m = open_failure_message("/dev/ttyS0", io, "Permission denied");
    assert_eq!(m, "Error opening port, please report this: Permission denied");
}

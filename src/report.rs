//! How a session's end, or a failure to start one, is reported: the text
//! for the error stream and the process's exit status.
use vstd::prelude::*;
use vstd::string::StringExecFns;

use crate::session::SessionOutcome;

verus! {

/// Categories of errors on serial ports.
#[verifier::external_type_specification]
pub struct ExSerialErrorKind(serialport::ErrorKind);

/// Exit status of a session that ended as it should.
pub const EXIT_OK: i32 = 0;

/// Exit status of a session that failed, or could not start.
pub const EXIT_FAILURE: i32 = 1;

/// Whether the session ended as it should: by the user's escape sequence,
/// or because the device was unplugged.
pub open spec fn is_clean_end(o: SessionOutcome) -> bool {
    o is UserTerminated || o is DeviceDisconnected
}

/// The exit status of the process after a session that ended with `o`.
pub fn exit_code(o: &SessionOutcome) -> (code: i32)
    ensures
        code == if is_clean_end(*o) { EXIT_OK } else { EXIT_FAILURE },
{
    match o {
        SessionOutcome::UserTerminated => EXIT_OK,
        SessionOutcome::DeviceDisconnected => EXIT_OK,
        SessionOutcome::TransportError(_) => EXIT_FAILURE,
        SessionOutcome::PeerThreadLost => EXIT_FAILURE,
    }
}

/// The line written to the error stream after a session that ended with
/// `o`; none after the user's escape sequence.
pub fn outcome_message(o: &SessionOutcome) -> (m: Option<String>)
    ensures
        o is UserTerminated <==> m is None,
        o is DeviceDisconnected ==> m->0@ == "Device disconnected"@,
        o is PeerThreadLost ==> m->0@ == "Error: Stdin reading thread stopped."@,
        o matches SessionOutcome::TransportError(detail) ==> m->0@ == detail@,
{
    match o {
        SessionOutcome::UserTerminated => None,
        SessionOutcome::DeviceDisconnected => Some(String::from_str("Device disconnected")),
        SessionOutcome::TransportError(detail) => Some(detail.clone()),
        SessionOutcome::PeerThreadLost => Some(String::from_str("Error: Stdin reading thread stopped.")),
    }
}

/// Whether opening the port failed because the device does not exist.
pub open spec fn is_not_found(kind: serialport::ErrorKind) -> bool {
    kind == serialport::ErrorKind::Io(std::io::ErrorKind::NotFound)
}

/// The line written to the error stream when the port at `device` could not
/// be opened: a missing device is named, any other failure is passed on
/// with its description.
pub fn open_failure_message(device: &str, kind: serialport::ErrorKind, detail: &str) -> (m: String)
    ensures
        is_not_found(kind) ==> m@ == "Device not found: "@ + device@,
        !is_not_found(kind) ==> m@ == "Error opening port, please report this: "@ + detail@,
{
    let not_found = match kind {
        serialport::ErrorKind::Io(std::io::ErrorKind::NotFound) => true,
        _ => false,
    };
    if not_found {
        String::from_str("Device not found: ").concat(device)
    } else {
        String::from_str("Error opening port, please report this: ").concat(detail)
    }
}

} // verus!

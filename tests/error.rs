use ut181a_cli::command::{parse_command, CommandError, InputProblem};
use ut181a_cli::error::{DmmError, ErrorCategory};
use ut181a_cli::mode::{Family, RangeStep};
use ut181a_cli::range::UnusedRangeStep;

#[test]
fn unknown_command_message() {
    let e = parse_command("save", Some("frobnicate"), &[]).unwrap_err();
    let e = DmmError::from_command_error(e);
    assert_eq!(e.category(), ErrorCategory::UnknownCommand);
    assert_eq!(e.message(), "unknown CLI command 'save frobnicate'");
}

#[test]
fn input_error_message() {
    let e = DmmError::from_command_error(CommandError::Input(InputProblem::BadIndex));
    assert_eq!(e.category(), ErrorCategory::InputValidation);
    assert_eq!(e.message(), "invalid input: index is not an unsigned 16-bit number");
}

#[test]
fn unused_range_is_a_protocol_error() {
    let e = DmmError::from_unused_range(UnusedRangeStep { family: Family::Diode, step: RangeStep::Step2 });
    assert_eq!(e.category(), ErrorCategory::Protocol);
    assert_eq!(e.message(), "protocol error: unused range step");
}

#[test]
fn other_error_messages() {
    assert_eq!(DmmError::DeviceNotFound.message(), "DMM is not found");
    assert_eq!(DmmError::DeviceNotFound.category(), ErrorCategory::DeviceNotFound);
    let t = DmmError::Transport("read failed".to_string());
    assert_eq!(t.category(), ErrorCategory::Transport);
    assert_eq!(t.message(), "transport error: read failed");
    let p = DmmError::Protocol("bad reply".to_string());
    assert_eq!(p.category(), ErrorCategory::Protocol);
    assert_eq!(p.message(), "protocol error: bad reply");
    assert_eq!(
        DmmError::Input(InputProblem::BadReferenceValue).message(),
        "invalid input: reference value is not a number"
    );
}

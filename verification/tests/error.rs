use ptyx::error::wait_exit_code;
use ptyx::error::ExitError;
use ptyx::error::PtyxError;

#[test]
fn exit_error_message() {
    assert_eq!(ExitError { exit_code: 3 }.message(), "process exited with code 3");
    assert_eq!(ExitError { exit_code: -1 }.message(), "process exited with code -1");
}

#[test]
fn wait_exit_code_reports_codes() {
    assert!(matches!(wait_exit_code(Ok(0)), Ok(0)));
    assert!(matches!(wait_exit_code(Err(PtyxError::ExitError { exit_code: 7 })), Ok(7)));
    assert!(matches!(wait_exit_code(Err(PtyxError::NotAConsole)), Err(PtyxError::NotAConsole)));
    assert!(matches!(wait_exit_code(Err(PtyxError::SessionClosed)), Err(PtyxError::SessionClosed)));
}

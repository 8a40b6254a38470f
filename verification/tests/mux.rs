use ptyx::error::PtyxError;
use ptyx::mux::copy_start;
use ptyx::mux::copy_step;
use ptyx::mux::accepts;
use ptyx::mux::interactive_step;
use ptyx::mux::InteractiveAction;
use ptyx::mux::InteractiveEvent;
use ptyx::mux::InteractiveState;
use ptyx::mux::CopyAction;
use ptyx::mux::CopyEvent;
use ptyx::mux::Mux;

#[test]
fn new_mux_is_not_running() {
    assert!(!Mux::new().is_running());
    assert!(!Mux::default().is_running());
}

#[test]
fn copy_loop_decisions() {
    assert!(matches!(copy_start(), CopyAction::Read));
    assert!(matches!(copy_step(CopyEvent::ReadDone(Ok(0))), CopyAction::Wait));
    assert!(matches!(copy_step(CopyEvent::ReadDone(Ok(17))), CopyAction::Write(17)));
    assert!(matches!(
        copy_step(CopyEvent::ReadDone(Err(PtyxError::ExitError { exit_code: 4 }))),
        CopyAction::Exit(4)
    ));
    assert!(matches!(
        copy_step(CopyEvent::ReadDone(Err(PtyxError::SessionClosed))),
        CopyAction::CheckAlive
    ));
    assert!(matches!(copy_step(CopyEvent::AliveChecked(true)), CopyAction::Read));
    assert!(matches!(copy_step(CopyEvent::AliveChecked(false)), CopyAction::Wait));
    assert!(matches!(copy_step(CopyEvent::WriteDone(true)), CopyAction::Read));
    assert!(matches!(copy_step(CopyEvent::WriteDone(false)), CopyAction::Wait));
}

fn drive(tty: bool, raw: Result<(), PtyxError>, copied: Result<i32, PtyxError>) -> (Vec<&'static str>, Result<i32, PtyxError>) {
    let mut names = Vec::new();
    let mut raw = Some(raw);
    let mut copied = Some(copied);
    let mut state = InteractiveState::Start;
    let mut event = InteractiveEvent::Began { is_tty_out: tty };
    loop {
        assert!(accepts(&state, &event));
        let (next, action) = interactive_step(state, event);
        state = next;
        event = match action {
            InteractiveAction::EnableVt => {
                names.push("vt");
                InteractiveEvent::VtEnabled
            }
            InteractiveAction::MakeRaw => {
                names.push("raw");
                InteractiveEvent::RawEntered(raw.take().unwrap())
            }
            InteractiveAction::Resize => {
                names.push("resize");
                InteractiveEvent::Resized(Err(PtyxError::SessionClosed))
            }
            InteractiveAction::Copy => {
                names.push("copy");
                InteractiveEvent::Copied(copied.take().unwrap())
            }
            InteractiveAction::Restore => {
                names.push("restore");
                InteractiveEvent::Restored(Err(PtyxError::NotAConsole))
            }
            InteractiveAction::Finish(r) => return (names, r),
        };
    }
}

#[test]
fn interactive_without_tty_only_copies() {
    let (steps, r) = drive(false, Ok(()), Ok(3));
    assert_eq!(steps, vec!["copy"]);
    assert!(matches!(r, Ok(3)));
}

#[test]
fn interactive_with_tty_restores_and_keeps_copy_result() {
    let (steps, r) = drive(true, Ok(()), Err(PtyxError::ExitError { exit_code: 2 }));
    assert_eq!(steps, vec!["vt", "raw", "resize", "copy", "restore"]);
    assert!(matches!(r, Err(PtyxError::ExitError { exit_code: 2 })));
}

#[test]
fn interactive_raw_failure_ends_run() {
    let (steps, r) = drive(true, Err(PtyxError::NotAConsole), Ok(0));
    assert_eq!(steps, vec!["vt", "raw"]);
    assert!(matches!(r, Err(PtyxError::NotAConsole)));
}

#[test]
fn interactive_rejects_out_of_order_events() {
    assert!(!accepts(&InteractiveState::Start, &InteractiveEvent::VtEnabled));
    assert!(!accepts(&InteractiveState::Done, &InteractiveEvent::Copied(Ok(0))));
    assert!(accepts(&InteractiveState::Copying { raw: true }, &InteractiveEvent::Copied(Ok(0))));
}

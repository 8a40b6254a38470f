use ptyx::error::wait_exit_code;
use ptyx::error::PtyxError;
use ptyx::session::unix::legacy_pty_candidates;
use ptyx::session::unix::no_legacy_pty;
use ptyx::session::unix::nonblocking_flags;
use ptyx::session::unix::plan_spawn;
use ptyx::session::unix::poll_action;
use ptyx::session::unix::wait_outcome;
use ptyx::session::unix::running_from_probe;
use ptyx::session::unix::eof_byte;
use ptyx::session::unix::DEFAULT_EOF;
use ptyx::session::unix::ChildStatus;
use ptyx::session::unix::PollAction;
use ptyx::session::SpawnOpts;

#[test]
fn spawn_plan() {
    let o = SpawnOpts::new("sh".to_string());
    let p = plan_spawn(&o).unwrap();
    assert_eq!(p.winsize, Some((80, 24)));
    assert!(!p.replace_env);

    let o = SpawnOpts::new("sh".to_string()).size(0, 24).env(vec![]);
    let p = plan_spawn(&o).unwrap();
    assert_eq!(p.winsize, None);
    assert!(p.replace_env);

    assert!(matches!(plan_spawn(&SpawnOpts::default()), Err(PtyxError::EmptyProgram)));
}

#[test]
fn nonblocking_flags_set_and_clear() {
    let bit = 0o4000;
    assert_eq!(nonblocking_flags(0o2, true, bit), 0o4002);
    assert_eq!(nonblocking_flags(0o4002, false, bit), 0o2);
    assert_eq!(nonblocking_flags(0o4002, true, bit), 0o4002);
    assert_eq!(nonblocking_flags(0o2, false, bit), 0o2);
    let f = 0x1234_0000;
    assert_eq!(nonblocking_flags(nonblocking_flags(f, true, bit), false, bit), f);
}

#[test]
fn poll_decisions() {
    let pollin: i16 = 0x1;
    let closed: i16 = 0x10 | 0x8;
    assert!(matches!(poll_action(-1, 0, pollin, closed), PollAction::Fail));
    assert!(matches!(poll_action(0, 0, pollin, closed), PollAction::Empty));
    assert!(matches!(poll_action(1, pollin, pollin, closed), PollAction::Read));
    assert!(matches!(poll_action(1, pollin | 0x10, pollin, closed), PollAction::Read));
    assert!(matches!(poll_action(1, 0x10, pollin, closed), PollAction::Empty));
    assert!(matches!(poll_action(1, 0x4, pollin, closed), PollAction::Empty));
}

#[test]
fn wait_outcomes() {
    assert!(matches!(wait_outcome(ChildStatus::NoChild), Ok(0)));
    assert!(matches!(wait_outcome(ChildStatus::Exited(0)), Ok(0)));
    assert!(matches!(
        wait_outcome(ChildStatus::Exited(2)),
        Err(PtyxError::ExitError { exit_code: 2 })
    ));
    assert!(matches!(
        wait_outcome(ChildStatus::Signaled),
        Err(PtyxError::ExitError { exit_code: -1 })
    ));
    assert!(matches!(wait_exit_code(wait_outcome(ChildStatus::Exited(5))), Ok(5)));
    assert!(matches!(wait_exit_code(wait_outcome(ChildStatus::Signaled)), Ok(-1)));
}

#[test]
fn legacy_pty_names() {
    let c = legacy_pty_candidates();
    assert_eq!(c.len(), 256);
    assert_eq!(c[0], ("/dev/ptyp0".to_string(), "/dev/ttyp0".to_string()));
    assert_eq!(c[15], ("/dev/ptypf".to_string(), "/dev/ttypf".to_string()));
    assert_eq!(c[16], ("/dev/ptyq0".to_string(), "/dev/ttyq0".to_string()));
    assert_eq!(c[255], ("/dev/ptyef".to_string(), "/dev/ttyef".to_string()));
    match no_legacy_pty() {
        PtyxError::Pty(m) => assert_eq!(m, "no available pty"),
        _ => panic!("expected a PTY error"),
    }
}

#[test]
fn liveness_probe_results() {
    assert!(running_from_probe(0, 0));
    assert!(!running_from_probe(0, 1234));
    assert!(!running_from_probe(-1, 0));
}

#[test]
fn eof_bytes() {
    assert_eq!(eof_byte(Some(0x1a)), 0x1a);
    assert_eq!(eof_byte(None), 4);
    assert_eq!(DEFAULT_EOF, 4);
}

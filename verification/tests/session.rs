use ptyx::session::alive_check;
use ptyx::session::check_program;
use ptyx::session::AliveCheck;
use ptyx::session::SpawnOpts;
use ptyx::error::PtyxError;

#[test]
fn spawn_opts_defaults() {
    let o = SpawnOpts::new("bash".to_string());
    assert_eq!(o.prog, "bash");
    assert!(o.args.is_empty());
    assert!(o.env.is_none());
    assert!(o.dir.is_none());
    assert_eq!((o.cols, o.rows), (80, 24));

    let d = SpawnOpts::default();
    assert_eq!(d.prog, "");
    assert_eq!((d.cols, d.rows), (0, 0));
}

#[test]
fn spawn_opts_builders() {
    let o = SpawnOpts::new("ls".to_string())
        .args(vec!["-l".to_string(), "-a".to_string()])
        .env(vec![("A".to_string(), "1".to_string())])
        .dir("/tmp".to_string())
        .size(132, 43);
    assert_eq!(o.prog, "ls");
    assert_eq!(o.args, vec!["-l".to_string(), "-a".to_string()]);
    assert_eq!(o.env, Some(vec![("A".to_string(), "1".to_string())]));
    assert_eq!(o.dir, Some("/tmp".to_string()));
    assert_eq!((o.cols, o.rows), (132, 43));
}

#[test]
fn empty_program_is_refused() {
    assert!(matches!(check_program(&SpawnOpts::default()), Err(PtyxError::EmptyProgram)));
    assert!(check_program(&SpawnOpts::new("sh".to_string())).is_ok());
}

#[test]
fn liveness_decision() {
    assert!(matches!(alive_check(true), AliveCheck::Probe));
    assert!(matches!(alive_check(false), AliveCheck::Known(false)));
}

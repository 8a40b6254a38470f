use ptyx::error::wait_exit_code;
use ptyx::error::PtyxError;
use ptyx::session::windows::build_cmdline;
use ptyx::session::windows::build_env_block;
use ptyx::session::windows::encode_utf16;
use ptyx::session::windows::escape_arg;
use ptyx::session::windows::plan_spawn;
use ptyx::session::windows::str_contains_char;
use ptyx::session::windows::to_coord;
use ptyx::session::windows::wait_outcome;
use ptyx::session::SpawnOpts;

#[test]
fn escape_plain_and_empty() {
    assert_eq!(escape_arg(""), "\"\"");
    assert_eq!(escape_arg("plain"), "plain");
    assert_eq!(escape_arg(r"C:\dir\file"), r"C:\dir\file");
}

#[test]
fn escape_quoted() {
    assert_eq!(escape_arg("a b"), "\"a b\"");
    assert_eq!(escape_arg("a\tb"), "\"a\tb\"");
    assert_eq!(escape_arg("say \"hi\""), "\"say \\\"hi\\\"\"");
    assert_eq!(escape_arg(r"a\b c"), "\"a\\b c\"");
    assert_eq!(escape_arg("a\\\"b"), "\"a\\\\\"b\"");
    assert_eq!(escape_arg("dir\\ "), "\"dir\\ \"");
    assert_eq!(escape_arg("end\\\\ x\\"), "\"end\\\\ x\\\"");
}

#[test]
fn command_lines() {
    assert_eq!(build_cmdline("cmd.exe", &[]), "cmd.exe");
    let args = vec!["/c".to_string(), "echo hi".to_string(), "".to_string()];
    assert_eq!(build_cmdline("cmd.exe", &args), "cmd.exe /c \"echo hi\" \"\"");
    assert_eq!(build_cmdline("my prog", &["x".to_string()]), "\"my prog\" x");
}

#[test]
fn utf16_encoding() {
    assert_eq!(encode_utf16("Az"), vec![0x41, 0x7a]);
    assert_eq!(encode_utf16("é€"), vec![0xe9, 0x20ac]);
    assert_eq!(encode_utf16("😀"), vec![0xd83d, 0xde00]);
    let s = "mixed 😀 text ü";
    assert_eq!(encode_utf16(s), s.encode_utf16().collect::<Vec<u16>>());
}

#[test]
fn env_blocks() {
    assert_eq!(build_env_block(None), None);
    assert_eq!(build_env_block(Some(&vec![])), Some(vec![0]));
    let env = vec![("A".to_string(), "1".to_string()), ("BB".to_string(), "x y".to_string())];
    let expected: Vec<u16> = "A=1\0BB=x y\0\0".encode_utf16().collect();
    assert_eq!(build_env_block(Some(&env)), Some(expected));
}

#[test]
fn contains_char() {
    assert!(str_contains_char("a b", ' '));
    assert!(!str_contains_char("ab", ' '));
    assert!(!str_contains_char("", 'x'));
}

#[test]
fn coords() {
    assert_eq!(to_coord(80, 24), (80, 24));
    assert_eq!(to_coord(40000, 1), (-25536, 1));
}

#[test]
fn conpty_spawn_plan() {
    let o = SpawnOpts::new("prog".to_string())
        .args(vec!["a b".to_string()])
        .size(0, 50)
        .dir("C:\\work".to_string());
    let p = plan_spawn(&o).unwrap();
    assert_eq!(p.size, (80, 50));
    let mut line: Vec<u16> = "prog \"a b\"".encode_utf16().collect();
    line.push(0);
    assert_eq!(p.cmdline, line);
    assert_eq!(p.env_block, None);
    let mut dir: Vec<u16> = "C:\\work".encode_utf16().collect();
    dir.push(0);
    assert_eq!(p.dir, Some(dir));

    let p = plan_spawn(&SpawnOpts::new("x".to_string()).size(0, 0)).unwrap();
    assert_eq!(p.size, (80, 24));
    assert_eq!(p.dir, None);

    assert!(matches!(plan_spawn(&SpawnOpts::default()), Err(PtyxError::EmptyProgram)));
}

#[test]
fn conpty_wait_outcomes() {
    match wait_outcome(false, false, 0) {
        Err(PtyxError::Pty(m)) => assert_eq!(m, "wait failed"),
        _ => panic!("expected a PTY error"),
    }
    assert!(matches!(wait_outcome(true, false, 0), Ok(0)));
    assert!(matches!(wait_outcome(true, true, 1), Err(PtyxError::ExitError { exit_code: 1 })));
    assert!(matches!(wait_outcome(true, true, 0), Err(PtyxError::ExitError { exit_code: 0 })));
    assert!(matches!(wait_outcome(true, false, 3), Err(PtyxError::ExitError { exit_code: 3 })));
    assert!(matches!(
        wait_outcome(true, false, 0xFFFF_FFFF),
        Err(PtyxError::ExitError { exit_code: -1 })
    ));
    assert!(matches!(wait_exit_code(wait_outcome(true, true, 9)), Ok(9)));
}

#[test]
fn escaping_keeps_backslashes_single() {
    // Backslashes are never doubled, including at the end of a quoted argument.
    assert_eq!(escape_arg("a b\\"), "\"a b\\\"");
    assert_eq!(escape_arg("x\\\"y"), "\"x\\\\\"y\"");
}

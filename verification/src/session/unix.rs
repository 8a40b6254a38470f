//! Decisions of the Unix PTY session: what spawning does with the options,
//! how the file-status flags change, what a poll result means, and what a
//! finished child reports.

use vstd::prelude::*;
use vstd::string::StringExecFns;
use crate::error::PtyxError;
use crate::session::SpawnOpts;
use crate::session::check_program;
use crate::error::spec_wait_exit_code;

verus! {

/// What spawning on Unix does besides opening the PTY and starting the program.
pub struct UnixSpawnPlan {
    /// The window size to set on the master, if any.
    pub winsize: Option<(u16, u16)>,
    /// Whether the child's environment is cleared and replaced by the given one.
    pub replace_env: bool,
}

/// The spawn plan for `opts`: refused for an empty program name; the window
/// size is set only when both dimensions are non-zero; the environment is
/// replaced exactly when one is given.
pub fn plan_spawn(opts: &SpawnOpts) -> (r: Result<UnixSpawnPlan, PtyxError>)
    ensures
        r is Err <==> opts.prog@.len() == 0,
        r matches Err(e) ==> e is EmptyProgram,
        r matches Ok(p) ==> {
            &&& p.winsize == (if opts.cols > 0 && opts.rows > 0 {
                Some((opts.cols, opts.rows))
            } else {
                None
            })
            &&& p.replace_env == opts.env is Some
        },
{
    match check_program(opts) {
        Err(e) => Err(e),
        Ok(()) => {
            let winsize = if opts.cols > 0 && opts.rows > 0 {
                Some((opts.cols, opts.rows))
            } else {
                None
            };
            Ok(UnixSpawnPlan { winsize, replace_env: opts.env.is_some() })
        },
    }
}

/// The file-status flags after switching non-blocking mode on or off:
/// `nonblock_bit` set or cleared, every other bit kept.
pub open spec fn spec_nonblocking_flags(flags: i32, nonblocking: bool, nonblock_bit: i32) -> i32 {
    if nonblocking {
        flags | nonblock_bit
    } else {
        flags & !nonblock_bit
    }
}

/// Computes the new file-status flags for `set_nonblocking`.
pub fn nonblocking_flags(flags: i32, nonblocking: bool, nonblock_bit: i32) -> (r: i32)
    ensures
        r == spec_nonblocking_flags(flags, nonblocking, nonblock_bit),
        r & !nonblock_bit == flags & !nonblock_bit,
        r & nonblock_bit == (if nonblocking { nonblock_bit } else { 0i32 }),
{
    let r: i32 = if nonblocking {
        flags | nonblock_bit
    } else {
        flags & !nonblock_bit
    };
    assert((flags | nonblock_bit) & !nonblock_bit == flags & !nonblock_bit) by (bit_vector);
    assert((flags & !nonblock_bit) & !nonblock_bit == flags & !nonblock_bit) by (bit_vector);
    assert((flags | nonblock_bit) & nonblock_bit == nonblock_bit) by (bit_vector);
    assert((flags & !nonblock_bit) & nonblock_bit == 0i32) by (bit_vector);
    r
}

/// Switching non-blocking mode on and then off again gives back flags that
/// did not have it; switching it off and on gives back flags that had it.
pub proof fn lemma_nonblocking_roundtrip(flags: i32, nonblock_bit: i32)
    ensures
        flags & nonblock_bit == 0 ==> spec_nonblocking_flags(
            spec_nonblocking_flags(flags, true, nonblock_bit),
            false,
            nonblock_bit,
        ) == flags,
        flags & nonblock_bit == nonblock_bit ==> spec_nonblocking_flags(
            spec_nonblocking_flags(flags, false, nonblock_bit),
            true,
            nonblock_bit,
        ) == flags,
{
    assert(flags & nonblock_bit == 0 ==> (flags | nonblock_bit) & !nonblock_bit == flags)
        by (bit_vector);
    assert(flags & nonblock_bit == nonblock_bit ==> (flags & !nonblock_bit) | nonblock_bit
        == flags) by (bit_vector);
}

/// What `read_timeout` does after polling the master.
pub enum PollAction {
    /// `poll` failed: report the operating-system error.
    Fail,
    /// Nothing to read (timeout, hang-up, error or no event): return 0 bytes.
    Empty,
    /// Data is ready: read from the master.
    Read,
}

/// The decision of `read_timeout` from the result of `poll` and the
/// returned events: a negative result is a failure, zero is a timeout, and
/// only a readable master is read.
pub fn poll_action(ret: i32, revents: i16, readable: i16, closed_mask: i16) -> (r: PollAction)
    ensures
        ret < 0 ==> r is Fail,
        ret == 0 ==> r is Empty,
        ret > 0 ==> (r is Read <==> revents & readable != 0),
        ret > 0 ==> (r is Empty <==> revents & readable == 0),
{
    if ret < 0 {
        return PollAction::Fail;
    }
    if ret == 0 {
        return PollAction::Empty;
    }
    if revents & readable != 0 {
        PollAction::Read
    } else if revents & closed_mask != 0 {
        PollAction::Empty
    } else {
        PollAction::Empty
    }
}

/// Whether the child still runs, from a status query that does not reap it
/// (`waitid` with `WEXITED | WNOHANG | WNOWAIT`): the query succeeded and
/// reported no exited child. A failed query (the child is gone, or was
/// already reaped) or a reported exit means it no longer runs.
pub fn running_from_probe(ret: i32, exited_pid: i32) -> (r: bool)
    ensures
        r == (ret == 0 && exited_pid == 0),
{
    ret == 0 && exited_pid == 0
}

/// The end-of-file character of a terminal when its settings cannot be
/// read: Ctrl-D.
pub const DEFAULT_EOF: u8 = 4;

/// The byte that signals end of input to the program on the PTY: the
/// terminal's end-of-file character, or Ctrl-D when it cannot be read.
pub fn eof_byte(configured: Option<u8>) -> (r: u8)
    ensures
        r == match configured {
            Some(c) => c,
            None => DEFAULT_EOF,
        },
{
    match configured {
        Some(c) => c,
        None => DEFAULT_EOF,
    }
}

/// How a child process ended, as far as `wait` is concerned.
pub enum ChildStatus {
    /// The session has no child process.
    NoChild,
    /// The child exited with this code.
    Exited(i32),
    /// The child was terminated by a signal.
    Signaled,
}

/// What `wait` reports: 0 for no child or a successful exit; `ExitError`
/// with the code for a non-zero exit, and with -1 for a signal.
pub open spec fn spec_wait_outcome(status: ChildStatus) -> Result<i32, PtyxError> {
    match status {
        ChildStatus::NoChild => Ok(0),
        ChildStatus::Exited(code) => if code == 0 {
            Ok(0)
        } else {
            Err(PtyxError::ExitError { exit_code: code })
        },
        ChildStatus::Signaled => Err(PtyxError::ExitError { exit_code: -1i32 }),
    }
}

/// Maps the child's status to the result of `wait`.
pub fn wait_outcome(status: ChildStatus) -> (r: Result<i32, PtyxError>)
    ensures
        r == spec_wait_outcome(status),
        r matches Ok(v) ==> v == 0,
        status matches ChildStatus::Exited(c) ==> (r is Ok <==> c == 0),
        status matches ChildStatus::Exited(c) ==> (c != 0 ==> r == Err::<i32, PtyxError>(
            PtyxError::ExitError { exit_code: c },
        )),
{
    match status {
        ChildStatus::NoChild => Ok(0),
        ChildStatus::Exited(code) => {
            if code != 0 {
                return Err(PtyxError::ExitError { exit_code: code });
            }
            Ok(code)
        },
        ChildStatus::Signaled => Err(PtyxError::ExitError { exit_code: -1 }),
    }
}

/// The letters that name the groups of legacy BSD pseudo-terminals.
pub open spec fn pty_groups() -> Seq<char> {
    seq!['p', 'q', 'r', 's', 't', 'u', 'v', 'w', 'x', 'y', 'z', 'a', 'b', 'c', 'd', 'e']
}

/// The digits that number the devices of a group.
pub open spec fn pty_digits() -> Seq<char> {
    seq!['0', '1', '2', '3', '4', '5', '6', '7', '8', '9', 'a', 'b', 'c', 'd', 'e', 'f']
}

/// The `k`-th legacy device name with the given prefix: group `k / 16`,
/// number `k % 16`.
pub open spec fn legacy_device(prefix: Seq<char>, k: int) -> Seq<char> {
    prefix + seq![pty_groups()[k / 16], pty_digits()[k % 16]]
}

/// `/dev/pty`
pub open spec fn master_prefix() -> Seq<char> {
    seq!['/', 'd', 'e', 'v', '/', 'p', 't', 'y']
}

/// `/dev/tty`
pub open spec fn slave_prefix() -> Seq<char> {
    seq!['/', 'd', 'e', 'v', '/', 't', 't', 'y']
}

fn device_name(prefix: &str, group: char, digit: char) -> (r: String)
    ensures
        r@ == prefix@ + seq![group, digit],
{
    let mut r = String::from_str(prefix);
    r.push(group);
    r.push(digit);
    assert(r@ =~= prefix@ + seq![group, digit]);
    r
}

/// Waiting for a session always yields an exit code: 0 without a child,
/// the child's code when it exited, and -1 when a signal ended it.
pub proof fn lemma_wait_reports_exit_code(status: ChildStatus)
    ensures
        spec_wait_exit_code(spec_wait_outcome(status)) == match status {
            ChildStatus::NoChild => Ok::<i32, PtyxError>(0),
            ChildStatus::Exited(code) => Ok::<i32, PtyxError>(code),
            ChildStatus::Signaled => Ok::<i32, PtyxError>(-1i32),
        },
{
}

/// `wait` reports success only for a child that exited with code 0 (or
/// for no child), and then reports 0; any other exit code comes back as
/// an `ExitError` carrying that very code.
pub proof fn lemma_wait_ok_only_on_success(status: ChildStatus)
    ensures
        spec_wait_outcome(status) matches Ok(v) ==> v == 0 && (status matches ChildStatus::Exited(
            c,
        ) ==> c == 0) && !(status is Signaled),
        status matches ChildStatus::Exited(c) ==> (c != 0 ==> spec_wait_outcome(status) == Err::<
            i32,
            PtyxError,
        >(PtyxError::ExitError { exit_code: c })),
{
}

/// A child ended by a signal (as `kill` ends it) never reports success:
/// `wait` gives `ExitError` with code -1.
pub proof fn lemma_signaled_child_fails()
    ensures
        spec_wait_outcome(ChildStatus::Signaled) == Err::<i32, PtyxError>(
            PtyxError::ExitError { exit_code: -1i32 },
        ),
{
}

/// The legacy (master, slave) device pairs, in the order they are tried:
/// `/dev/ptyXN` with `/dev/ttyXN`, group letter `X` outermost.
pub fn legacy_pty_candidates() -> (r: Vec<(String, String)>)
    ensures
        r@.len() == 256,
        forall|k: int|
            0 <= k < 256 ==> (#[trigger] r@[k]).0@ == legacy_device(master_prefix(), k) && r@[k].1@
                == legacy_device(slave_prefix(), k),
{
    let groups: [char; 16] = ['p', 'q', 'r', 's', 't', 'u', 'v', 'w', 'x', 'y', 'z', 'a', 'b', 'c',
        'd', 'e'];
    let digits: [char; 16] = ['0', '1', '2', '3', '4', '5', '6', '7', '8', '9', 'a', 'b', 'c', 'd',
        'e', 'f'];
    assert(groups@ == pty_groups());
    assert(digits@ == pty_digits());
    let master = "/dev/pty";
    let slave = "/dev/tty";
    proof {
        reveal_strlit("/dev/pty");
        reveal_strlit("/dev/tty");
    }
    let mut out: Vec<(String, String)> = Vec::new();
    for i in 0..16usize
        invariant
            groups@ == pty_groups(),
            digits@ == pty_digits(),
            master@ == master_prefix(),
            slave@ == slave_prefix(),
            out@.len() == 16 * i,
            forall|k: int| 0 <= k < out@.len() ==> #[trigger] out@[k].0@ == legacy_device(
                master_prefix(),
                k,
            ) && out@[k].1@ == legacy_device(slave_prefix(), k),
    {
        for j in 0..16usize
            invariant
                groups@ == pty_groups(),
                digits@ == pty_digits(),
                master@ == master_prefix(),
                slave@ == slave_prefix(),
                0 <= i < 16,
                out@.len() == 16 * i + j,
                forall|k: int| 0 <= k < out@.len() ==> #[trigger] out@[k].0@ == legacy_device(
                    master_prefix(),
                    k,
                ) && out@[k].1@ == legacy_device(slave_prefix(), k),
        {
            let pty = device_name(master, groups[i], digits[j]);
            let tty = device_name(slave, groups[i], digits[j]);
            let ghost k: int = 16 * i + j;
            assert(k / 16 == i && k % 16 == j) by (nonlinear_arith)
                requires k == 16 * i + j, 0 <= j < 16, 0 <= i;
            let ghost before = out@;
            out.push((pty, tty));
            assert forall|m: int| 0 <= m < out@.len() implies #[trigger] out@[m].0@
                == legacy_device(master_prefix(), m) && out@[m].1@ == legacy_device(
                slave_prefix(),
                m,
            ) by {
                if m < k {
                    assert(out@[m] == before[m]);
                } else {
                    assert(m == k);
                    assert(legacy_device(master_prefix(), k) =~= master_prefix() + seq![
                        groups@[i as int],
                        digits@[j as int],
                    ]);
                    assert(legacy_device(slave_prefix(), k) =~= slave_prefix() + seq![
                        groups@[i as int],
                        digits@[j as int],
                    ]);
                }
            }
        }
    }
    assert(out@.len() == 256);
    assert(forall|k: int| 0 <= k < 256 ==> (#[trigger] out@[k]).0@ == legacy_device(master_prefix(), k));
    out
}

/// The error when no legacy pseudo-terminal could be opened.
pub fn no_legacy_pty() -> (e: PtyxError)
    ensures
        e matches PtyxError::Pty(m) && m@ == seq!['n', 'o', ' ', 'a', 'v', 'a', 'i', 'l', 'a', 'b', 'l', 'e', ' ', 'p', 't', 'y'],
{
    let m = String::from_str("no available pty");
    proof {
        reveal_strlit("no available pty");
    }
    PtyxError::Pty(m)
}

} // verus!

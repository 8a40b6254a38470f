//! Sessions: spawn options, the process-control interface, and the
//! decisions shared by the platform back ends.

pub mod unix;
pub mod windows;

use vstd::prelude::*;
use crate::error::PtyxError;

verus! {

/// Options for spawning a process.
#[derive(Debug, Clone)]
pub struct SpawnOpts {
    /// Program to execute.
    pub prog: String,
    /// Arguments to pass.
    pub args: Vec<String>,
    /// Environment variables (`None` = inherit).
    pub env: Option<Vec<(String, String)>>,
    /// Working directory.
    pub dir: Option<String>,
    /// Terminal columns.
    pub cols: u16,
    /// Terminal rows.
    pub rows: u16,
}

/// The mathematical value of a [`SpawnOpts`].
pub struct SpawnOptsView {
    pub prog: Seq<char>,
    pub args: Seq<Seq<char>>,
    pub env: Option<Seq<(Seq<char>, Seq<char>)>>,
    pub dir: Option<Seq<char>>,
    pub cols: u16,
    pub rows: u16,
}

impl View for SpawnOpts {
    type V = SpawnOptsView;

    open spec fn view(&self) -> SpawnOptsView {
        SpawnOptsView {
            prog: self.prog@,
            args: self.args.deep_view(),
            env: self.env.deep_view(),
            dir: self.dir.deep_view(),
            cols: self.cols,
            rows: self.rows,
        }
    }
}

impl SpawnOpts {
    /// Options that run `prog` with no arguments, the inherited
    /// environment and working directory, on an 80x24 terminal.
    pub fn new(prog: String) -> (r: Self)
        ensures
            r@ == (SpawnOptsView {
                prog: prog@,
                args: Seq::empty(),
                env: None,
                dir: None,
                cols: 80,
                rows: 24,
            }),
    {
        let r = SpawnOpts { prog, args: Vec::new(), env: None, dir: None, cols: 80, rows: 24 };
        assert(r.args.deep_view() =~= Seq::<Seq<char>>::empty());
        r
    }

    /// Replaces the arguments.
    pub fn args(self, args: Vec<String>) -> (r: Self)
        ensures
            r@ == (SpawnOptsView { args: args.deep_view(), ..self@ }),
    {
        let mut s = self;
        s.args = args;
        s
    }

    /// Replaces the environment (the child no longer inherits it).
    pub fn env(self, env: Vec<(String, String)>) -> (r: Self)
        ensures
            r@ == (SpawnOptsView { env: Some(env.deep_view()), ..self@ }),
    {
        let mut s = self;
        s.env = Some(env);
        s
    }

    /// Sets the working directory.
    pub fn dir(self, dir: String) -> (r: Self)
        ensures
            r@ == (SpawnOptsView { dir: Some(dir@), ..self@ }),
    {
        let mut s = self;
        s.dir = Some(dir);
        s
    }

    /// Sets the terminal size.
    pub fn size(self, cols: u16, rows: u16) -> (r: Self)
        ensures
            r@ == (SpawnOptsView { cols, rows, ..self@ }),
    {
        let mut s = self;
        s.cols = cols;
        s.rows = rows;
        s
    }
}

impl Default for SpawnOpts {
    /// Empty options: no program, no arguments, inherited environment and
    /// directory, and a 0x0 terminal.
    fn default() -> (r: Self)
        ensures
            r@ == (SpawnOptsView {
                prog: Seq::empty(),
                args: Seq::empty(),
                env: None,
                dir: None,
                cols: 0,
                rows: 0,
            }),
    {
        let r = SpawnOpts {
            prog: String::new(),
            args: Vec::new(),
            env: None,
            dir: None,
            cols: 0,
            rows: 0,
        };
        assert(r.args.deep_view() =~= Seq::<Seq<char>>::empty());
        r
    }
}

/// Session trait for PTY process control.
pub trait SessionTrait: Send {
    /// Reads from the PTY output.
    fn read(&mut self, buf: &mut [u8]) -> Result<usize, PtyxError>;

    /// Writes to the PTY input.
    fn write(&mut self, buf: &[u8]) -> Result<usize, PtyxError>;

    /// Resizes the PTY.
    fn resize(&self, cols: u16, rows: u16) -> Result<(), PtyxError>;

    /// Waits for the process to exit, returns its exit code.
    fn wait(&mut self) -> Result<i32, PtyxError>;

    /// Kills the process.
    fn kill(&mut self) -> Result<(), PtyxError>;

    /// The process ID.
    fn pid(&self) -> u32;

    /// Closes stdin to signal EOF.
    fn close_stdin(&mut self) -> Result<(), PtyxError>;

    /// Whether the session is still alive.
    fn is_alive(&self) -> bool;
}

/// Spawning is refused for an empty program name.
pub fn check_program(opts: &SpawnOpts) -> (r: Result<(), PtyxError>)
    ensures
        r is Err <==> opts.prog@.len() == 0,
        r matches Err(e) ==> e is EmptyProgram,
{
    if opts.prog.as_str().is_empty() {
        Err(PtyxError::EmptyProgram)
    } else {
        Ok(())
    }
}

/// How liveness is decided: known without asking the system, or by
/// asking the system whether the process still runs.
pub enum AliveCheck {
    /// The answer is known.
    Known(bool),
    /// Ask the system whether the process still runs.
    Probe,
}

/// A session is alive while its process runs: a session with a child
/// process asks the system every time, whatever else has happened to the
/// session (closing its input, for one); a session without a child
/// process is not alive.
pub fn alive_check(has_child: bool) -> (r: AliveCheck)
    ensures
        r == (if has_child { AliveCheck::Probe } else { AliveCheck::Known(false) }),
{
    if has_child {
        AliveCheck::Probe
    } else {
        AliveCheck::Known(false)
    }
}

} // verus!

//! I/O multiplexer: bridges a console and a session.
//!
//! The multiplexer's own state, and the decisions of the copy loop and of
//! an interactive run, each as a function from what just happened to what
//! to do next; the caller performs the I/O.

use vstd::prelude::*;
use crate::error::PtyxError;

verus! {

const MUX_INIT: u8 = 0;
const MUX_RUNNING: u8 = 1;
const MUX_STOPPED: u8 = 2;

/// The lifecycle state of a multiplexer.
pub enum MuxState {
    Init,
    Running,
    Stopped,
}

/// I/O multiplexer that bridges a console and a session.
pub struct Mux {
    state: u8,
    #[allow(dead_code)]
    stop_flag: bool,
}

impl Mux {
    /// The state is one of the three lifecycle states.
    #[verifier::type_invariant]
    spec fn well_formed(self) -> bool {
        self.state <= MUX_STOPPED
    }

    /// The lifecycle state.
    pub closed spec fn state(self) -> MuxState {
        if self.state == MUX_INIT {
            MuxState::Init
        } else if self.state == MUX_RUNNING {
            MuxState::Running
        } else {
            MuxState::Stopped
        }
    }

    /// Creates a multiplexer that has not started.
    pub fn new() -> (r: Self)
        ensures
            r.state() == MuxState::Init,
    {
        Mux { state: MUX_INIT, stop_flag: false }
    }

    /// Whether the multiplexer is running.
    pub fn is_running(&self) -> (r: bool)
        ensures
            r == (self.state() == MuxState::Running),
    {
        self.state == MUX_RUNNING
    }
}

impl Default for Mux {
    /// A multiplexer that has not started.
    fn default() -> (r: Self)
        ensures
            r.state() == MuxState::Init,
    {
        Self::new()
    }
}

/// A multiplexer that has just been created is not running.
pub proof fn lemma_new_mux_not_running(m: Mux)
    requires
        m.state() == MuxState::Init,
    ensures
        m.state() != MuxState::Running,
{
}

/// What the copy loop (session output to stdout) does next.
pub enum CopyAction {
    /// Read from the session into the buffer.
    Read,
    /// Write the first `n` bytes of the buffer to stdout and flush.
    Write(usize),
    /// Ask whether the session is still alive.
    CheckAlive,
    /// Stop copying and wait for the process; its result is the result.
    Wait,
    /// Stop copying; the process exited with this code.
    Exit(i32),
}

/// What happened in the copy loop.
pub enum CopyEvent {
    /// A read from the session returned.
    ReadDone(Result<usize, PtyxError>),
    /// Writing to stdout succeeded or failed.
    WriteDone(bool),
    /// The session is alive or not.
    AliveChecked(bool),
}

/// The copy loop's decision: end of output waits for the process; data is
/// written out; an exit error ends the loop with its code; another read
/// error ends the loop only when the session is no longer alive; a failed
/// write ends the loop.
pub open spec fn spec_copy_step(ev: CopyEvent) -> CopyAction {
    match ev {
        CopyEvent::ReadDone(Ok(n)) => if n == 0 {
            CopyAction::Wait
        } else {
            CopyAction::Write(n)
        },
        CopyEvent::ReadDone(Err(PtyxError::ExitError { exit_code })) => CopyAction::Exit(exit_code),
        CopyEvent::ReadDone(Err(_)) => CopyAction::CheckAlive,
        CopyEvent::WriteDone(ok) => if ok {
            CopyAction::Read
        } else {
            CopyAction::Wait
        },
        CopyEvent::AliveChecked(alive) => if alive {
            CopyAction::Read
        } else {
            CopyAction::Wait
        },
    }
}

/// The first action of the copy loop: read.
pub fn copy_start() -> (r: CopyAction)
    ensures
        r == CopyAction::Read,
{
    CopyAction::Read
}

/// The next action of the copy loop after `ev`.
pub fn copy_step(ev: CopyEvent) -> (r: CopyAction)
    ensures
        r == spec_copy_step(ev),
        ev matches CopyEvent::ReadDone(Ok(n)) ==> r == (if n == 0 {
            CopyAction::Wait
        } else {
            CopyAction::Write(n)
        }),
{
    match ev {
        CopyEvent::ReadDone(Ok(0)) => CopyAction::Wait,
        CopyEvent::ReadDone(Ok(n)) => CopyAction::Write(n),
        CopyEvent::ReadDone(Err(PtyxError::ExitError { exit_code })) => CopyAction::Exit(exit_code),
        CopyEvent::ReadDone(Err(_)) => CopyAction::CheckAlive,
        CopyEvent::WriteDone(ok) => {
            if ok {
                CopyAction::Read
            } else {
                CopyAction::Wait
            }
        },
        CopyEvent::AliveChecked(alive) => {
            if alive {
                CopyAction::Read
            } else {
                CopyAction::Wait
            }
        },
    }
}

/// Every read that returned bytes is followed by writing exactly those
/// bytes; only a read of no bytes (end of output) stops the loop to wait
/// for the process.
pub proof fn lemma_copy_forwards_every_read(n: usize)
    ensures
        n > 0 ==> spec_copy_step(CopyEvent::ReadDone(Ok::<usize, PtyxError>(n)))
            == CopyAction::Write(n),
        n == 0 ==> spec_copy_step(CopyEvent::ReadDone(Ok::<usize, PtyxError>(n)))
            == CopyAction::Wait,
        spec_copy_step(CopyEvent::ReadDone(Ok::<usize, PtyxError>(n))) == CopyAction::Wait
            <==> n == 0,
{
}

/// Bytes are written out only after a read that returned exactly that many,
/// and never zero of them; the loop exits with a code only when the read
/// reported that exit code.
pub proof fn lemma_copy_writes_what_was_read(ev: CopyEvent)
    ensures
        spec_copy_step(ev) matches CopyAction::Write(n) ==> n > 0 && ev == CopyEvent::ReadDone(
            Ok::<usize, PtyxError>(n),
        ),
        spec_copy_step(ev) matches CopyAction::Exit(c) ==> ev == CopyEvent::ReadDone(
            Err::<usize, PtyxError>(PtyxError::ExitError { exit_code: c }),
        ),
{
}

/// Where an interactive run stands.
pub enum InteractiveState {
    /// Nothing has been done yet.
    Start,
    /// Virtual-terminal processing is being enabled.
    EnablingVt,
    /// Raw mode is being entered.
    EnteringRaw,
    /// The session is being resized to the console.
    Resizing,
    /// The copy loop runs; `raw` tells whether raw mode was entered.
    Copying { raw: bool },
    /// The saved terminal state is being restored; `result` is the copy
    /// loop's result.
    Restoring { result: Result<i32, PtyxError> },
    /// The run has ended.
    Done,
}

/// What happened in an interactive run.
pub enum InteractiveEvent {
    /// The run began; stdout is a TTY or not.
    Began { is_tty_out: bool },
    /// Virtual-terminal processing was enabled.
    VtEnabled,
    /// Entering raw mode succeeded or failed.
    RawEntered(Result<(), PtyxError>),
    /// Resizing the session succeeded or failed.
    Resized(Result<(), PtyxError>),
    /// The copy loop ended with this result.
    Copied(Result<i32, PtyxError>),
    /// Restoring the terminal succeeded or failed.
    Restored(Result<(), PtyxError>),
}

/// What an interactive run does next.
pub enum InteractiveAction {
    /// Enable virtual-terminal processing on the console.
    EnableVt,
    /// Enter raw mode, saving the terminal state.
    MakeRaw,
    /// Resize the session to the console's size.
    Resize,
    /// Run the copy loop.
    Copy,
    /// Restore the saved terminal state.
    Restore,
    /// End the run with this result.
    Finish(Result<i32, PtyxError>),
}

/// The events a state waits for: the beginning at the start, and in each
/// later state the outcome of the action that led to it.
pub open spec fn spec_accepts(state: InteractiveState, event: InteractiveEvent) -> bool {
    match (state, event) {
        (InteractiveState::Start, InteractiveEvent::Began { .. }) => true,
        (InteractiveState::EnablingVt, InteractiveEvent::VtEnabled) => true,
        (InteractiveState::EnteringRaw, InteractiveEvent::RawEntered(_)) => true,
        (InteractiveState::Resizing, InteractiveEvent::Resized(_)) => true,
        (InteractiveState::Copying { .. }, InteractiveEvent::Copied(_)) => true,
        (InteractiveState::Restoring { .. }, InteractiveEvent::Restored(_)) => true,
        _ => false,
    }
}

/// The decisions of an interactive run. Without a TTY only the copy loop
/// runs and its result ends the run. With one: enable virtual-terminal
/// processing, then enter raw mode; a failure there ends the run with that
/// error; otherwise resize the session (a failure is ignored), run the copy
/// loop, restore the terminal (a failure is ignored), and end the run with
/// the copy loop's result.
pub open spec fn spec_interactive_step(state: InteractiveState, event: InteractiveEvent) -> (
    InteractiveState,
    InteractiveAction,
) {
    match (state, event) {
        (InteractiveState::Start, InteractiveEvent::Began { is_tty_out }) => if is_tty_out {
            (InteractiveState::EnablingVt, InteractiveAction::EnableVt)
        } else {
            (InteractiveState::Copying { raw: false }, InteractiveAction::Copy)
        },
        (InteractiveState::EnablingVt, InteractiveEvent::VtEnabled) => (
            InteractiveState::EnteringRaw,
            InteractiveAction::MakeRaw,
        ),
        (InteractiveState::EnteringRaw, InteractiveEvent::RawEntered(r)) => match r {
            Ok(()) => (InteractiveState::Resizing, InteractiveAction::Resize),
            Err(e) => (InteractiveState::Done, InteractiveAction::Finish(Err(e))),
        },
        (InteractiveState::Resizing, InteractiveEvent::Resized(_)) => (
            InteractiveState::Copying { raw: true },
            InteractiveAction::Copy,
        ),
        (InteractiveState::Copying { raw }, InteractiveEvent::Copied(result)) => if raw {
            (InteractiveState::Restoring { result }, InteractiveAction::Restore)
        } else {
            (InteractiveState::Done, InteractiveAction::Finish(result))
        },
        (InteractiveState::Restoring { result }, InteractiveEvent::Restored(_)) => (
            InteractiveState::Done,
            InteractiveAction::Finish(result),
        ),
        (s, _) => (s, InteractiveAction::Finish(Ok(0))),
    }
}

/// Whether `state` waits for `event`.
pub fn accepts(state: &InteractiveState, event: &InteractiveEvent) -> (r: bool)
    ensures
        r == spec_accepts(*state, *event),
{
    match (state, event) {
        (InteractiveState::Start, InteractiveEvent::Began { .. }) => true,
        (InteractiveState::EnablingVt, InteractiveEvent::VtEnabled) => true,
        (InteractiveState::EnteringRaw, InteractiveEvent::RawEntered(_)) => true,
        (InteractiveState::Resizing, InteractiveEvent::Resized(_)) => true,
        (InteractiveState::Copying { .. }, InteractiveEvent::Copied(_)) => true,
        (InteractiveState::Restoring { .. }, InteractiveEvent::Restored(_)) => true,
        _ => false,
    }
}

/// The next state and action of an interactive run after `event`.
pub fn interactive_step(state: InteractiveState, event: InteractiveEvent) -> (r: (
    InteractiveState,
    InteractiveAction,
))
    requires
        spec_accepts(state, event),
    ensures
        r == spec_interactive_step(state, event),
{
    match (state, event) {
        (InteractiveState::Start, InteractiveEvent::Began { is_tty_out }) => {
            if is_tty_out {
                (InteractiveState::EnablingVt, InteractiveAction::EnableVt)
            } else {
                (InteractiveState::Copying { raw: false }, InteractiveAction::Copy)
            }
        },
        (InteractiveState::EnablingVt, InteractiveEvent::VtEnabled) => (
            InteractiveState::EnteringRaw,
            InteractiveAction::MakeRaw,
        ),
        (InteractiveState::EnteringRaw, InteractiveEvent::RawEntered(r)) => match r {
            Ok(()) => (InteractiveState::Resizing, InteractiveAction::Resize),
            Err(e) => (InteractiveState::Done, InteractiveAction::Finish(Err(e))),
        },
        (InteractiveState::Resizing, InteractiveEvent::Resized(_)) => (
            InteractiveState::Copying { raw: true },
            InteractiveAction::Copy,
        ),
        (InteractiveState::Copying { raw }, InteractiveEvent::Copied(result)) => {
            if raw {
                (InteractiveState::Restoring { result }, InteractiveAction::Restore)
            } else {
                (InteractiveState::Done, InteractiveAction::Finish(result))
            }
        },
        (InteractiveState::Restoring { result }, InteractiveEvent::Restored(_)) => (
            InteractiveState::Done,
            InteractiveAction::Finish(result),
        ),
        (s, _) => (s, InteractiveAction::Finish(Ok(0))),
    }
}

/// The actions of a run fed `events` from `state`, up to the first event
/// the run does not wait for.
pub open spec fn spec_run(state: InteractiveState, events: Seq<InteractiveEvent>) -> Seq<
    InteractiveAction,
>
    decreases events.len(),
{
    if events.len() == 0 || !spec_accepts(state, events[0]) {
        seq![]
    } else {
        let (next, action) = spec_interactive_step(state, events[0]);
        seq![action] + spec_run(next, events.drop_first())
    }
}

/// A whole interactive run. Without a TTY the copy loop runs and its result
/// is the run's. With one, a failure to enter raw mode ends the run with
/// that error before anything else; otherwise the session is resized before
/// the copy loop, the terminal is restored after it, and the run ends with
/// the copy loop's result whatever the resize and the restore gave.
pub proof fn lemma_interactive_run(
    raw_error: PtyxError,
    resized: Result<(), PtyxError>,
    copied: Result<i32, PtyxError>,
    restored: Result<(), PtyxError>,
)
    ensures
        spec_run(
            InteractiveState::Start,
            seq![InteractiveEvent::Began { is_tty_out: false }, InteractiveEvent::Copied(copied)],
        ) == seq![InteractiveAction::Copy, InteractiveAction::Finish(copied)],
        spec_run(
            InteractiveState::Start,
            seq![
                InteractiveEvent::Began { is_tty_out: true },
                InteractiveEvent::VtEnabled,
                InteractiveEvent::RawEntered(Err(raw_error)),
            ],
        ) == seq![
            InteractiveAction::EnableVt,
            InteractiveAction::MakeRaw,
            InteractiveAction::Finish(Err(raw_error)),
        ],
        spec_run(
            InteractiveState::Start,
            seq![
                InteractiveEvent::Began { is_tty_out: true },
                InteractiveEvent::VtEnabled,
                InteractiveEvent::RawEntered(Ok(())),
                InteractiveEvent::Resized(resized),
                InteractiveEvent::Copied(copied),
                InteractiveEvent::Restored(restored),
            ],
        ) == seq![
            InteractiveAction::EnableVt,
            InteractiveAction::MakeRaw,
            InteractiveAction::Resize,
            InteractiveAction::Copy,
            InteractiveAction::Restore,
            InteractiveAction::Finish(copied),
        ],
{
    reveal_with_fuel(spec_run, 7);
    let a = seq![InteractiveEvent::Began { is_tty_out: false }, InteractiveEvent::Copied(copied)];
    assert(a.drop_first() =~= seq![InteractiveEvent::Copied(copied)]);
    assert(a.drop_first().drop_first() =~= Seq::<InteractiveEvent>::empty());
    assert(spec_run(InteractiveState::Start, a) =~= seq![
        InteractiveAction::Copy,
        InteractiveAction::Finish(copied),
    ]);
    let b = seq![
        InteractiveEvent::Began { is_tty_out: true },
        InteractiveEvent::VtEnabled,
        InteractiveEvent::RawEntered(Err(raw_error)),
    ];
    assert(b.drop_first() =~= seq![
        InteractiveEvent::VtEnabled,
        InteractiveEvent::RawEntered(Err(raw_error)),
    ]);
    assert(b.drop_first().drop_first() =~= seq![InteractiveEvent::RawEntered(Err(raw_error))]);
    assert(b.drop_first().drop_first().drop_first() =~= Seq::<InteractiveEvent>::empty());
    assert(spec_run(InteractiveState::Start, b) =~= seq![
        InteractiveAction::EnableVt,
        InteractiveAction::MakeRaw,
        InteractiveAction::Finish(Err(raw_error)),
    ]);
    let c = seq![
        InteractiveEvent::Began { is_tty_out: true },
        InteractiveEvent::VtEnabled,
        InteractiveEvent::RawEntered(Ok(())),
        InteractiveEvent::Resized(resized),
        InteractiveEvent::Copied(copied),
        InteractiveEvent::Restored(restored),
    ];
    let c1 = c.drop_first();
    let c2 = c1.drop_first();
    let c3 = c2.drop_first();
    let c4 = c3.drop_first();
    let c5 = c4.drop_first();
    let c6 = c5.drop_first();
    assert(c1 =~= seq![
        InteractiveEvent::VtEnabled,
        InteractiveEvent::RawEntered(Ok(())),
        InteractiveEvent::Resized(resized),
        InteractiveEvent::Copied(copied),
        InteractiveEvent::Restored(restored),
    ]);
    assert(c2 =~= seq![
        InteractiveEvent::RawEntered(Ok(())),
        InteractiveEvent::Resized(resized),
        InteractiveEvent::Copied(copied),
        InteractiveEvent::Restored(restored),
    ]);
    assert(c3 =~= seq![
        InteractiveEvent::Resized(resized),
        InteractiveEvent::Copied(copied),
        InteractiveEvent::Restored(restored),
    ]);
    assert(c4 =~= seq![InteractiveEvent::Copied(copied), InteractiveEvent::Restored(restored)]);
    assert(c5 =~= seq![InteractiveEvent::Restored(restored)]);
    assert(c6 =~= Seq::<InteractiveEvent>::empty());
    assert(spec_run(InteractiveState::Start, c) =~= seq![
        InteractiveAction::EnableVt,
        InteractiveAction::MakeRaw,
        InteractiveAction::Resize,
        InteractiveAction::Copy,
        InteractiveAction::Restore,
        InteractiveAction::Finish(copied),
    ]);
}

} // verus!

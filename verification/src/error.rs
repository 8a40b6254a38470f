//! Error types.

use vstd::prelude::*;
use crate::text::push_decimal_i32;
use crate::text::decimal_i32;
use vstd::string::StringExecFns;

verus! {

/// `std::io::Error`, carried through opaque: nothing is assumed of it.
#[verifier::external_type_specification]
#[verifier::external_body]
pub struct ExIoError(std::io::Error);


/// Main error type for ptyx operations.
#[derive(Debug)]
pub enum PtyxError {
    /// An operating-system I/O error.
    Io(std::io::Error),
    /// The standard streams are not attached to a console/TTY.
    NotAConsole,
    /// The program name to spawn is empty.
    EmptyProgram,
    /// A pseudo-terminal could not be set up.
    Pty(String),
    /// The process exited with a non-zero code (or was killed).
    ExitError { exit_code: i32 },
    /// The multiplexer is already running.
    MuxAlreadyStarted,
    /// The session has been closed.
    SessionClosed,
    /// An error reported by a Unix system call: its `errno` number.
    Unix(i32),
    /// An error reported by a Windows API call: its `HRESULT` code.
    Windows(i32),
}

/// Exit error with exit code.
#[derive(Debug, Clone)]
pub struct ExitError {
    pub exit_code: i32,
}

/// "process exited with code N".
pub open spec fn exit_message(code: int) -> Seq<char> {
    seq!['p', 'r', 'o', 'c', 'e', 's', 's', ' ', 'e', 'x', 'i', 't', 'e', 'd', ' ', 'w', 'i', 't',
        'h', ' ', 'c', 'o', 'd', 'e', ' '] + decimal_i32(code)
}

impl ExitError {
    /// The human-readable message of this error.
    pub fn message(&self) -> (r: String)
        ensures
            r@ == exit_message(self.exit_code as int),
    {
        let mut r = String::from_str("process exited with code ");
        proof {
            reveal_strlit("process exited with code ");
        }
        push_decimal_i32(&mut r, self.exit_code);
        r
    }
}

/// What a caller that only wants an exit code makes of the result of `wait`:
/// a non-zero exit (`ExitError`) is reported as its code, any other error is kept.
pub open spec fn spec_wait_exit_code(r: Result<i32, PtyxError>) -> Result<i32, PtyxError> {
    match r {
        Err(PtyxError::ExitError { exit_code }) => Ok(exit_code),
        _ => r,
    }
}

/// Reports the exit code of a `wait` result.
pub fn wait_exit_code(r: Result<i32, PtyxError>) -> (out: Result<i32, PtyxError>)
    ensures
        match r {
            Ok(code) => out == Ok::<i32, PtyxError>(code),
            Err(PtyxError::ExitError { exit_code }) => out == Ok::<i32, PtyxError>(exit_code),
            Err(e) => out == Err::<i32, PtyxError>(e),
        },
        out == spec_wait_exit_code(r),
{
    match r {
        Ok(code) => Ok(code),
        Err(PtyxError::ExitError { exit_code }) => Ok(exit_code),
        Err(e) => Err(e),
    }
}

} // verus!

//! Console (TTY) decisions: the size reported, when raw mode may be
//! entered, and the console modes used on Windows.

use vstd::prelude::*;
use crate::error::PtyxError;

verus! {

/// Columns reported when the size cannot be known.
pub const DEFAULT_COLS: u16 = 80;
/// Rows reported when the size cannot be known.
pub const DEFAULT_ROWS: u16 = 24;

/// Windows input mode: Ctrl+C and other control keys are processed by the system.
pub const ENABLE_PROCESSED_INPUT: u32 = 0x0001;
/// Windows input mode: input is returned a line at a time.
pub const ENABLE_LINE_INPUT: u32 = 0x0002;
/// Windows input mode: typed characters are echoed.
pub const ENABLE_ECHO_INPUT: u32 = 0x0004;
/// Windows output mode: ANSI escape sequences are interpreted.
pub const ENABLE_VIRTUAL_TERMINAL_PROCESSING: u32 = 0x0004;

/// The terminal size `(cols, rows)`: when stdout is not a TTY the terminal
/// is not asked and the size is 80x24; otherwise it is what the terminal
/// reports, or 80x24 when it reports nothing.
pub fn console_size<F: FnOnce() -> Option<(u16, u16)>>(out_tty: bool, query: F) -> (r: (u16, u16))
    requires
        out_tty ==> call_requires(query, ()),
    ensures
        !out_tty ==> r == (DEFAULT_COLS, DEFAULT_ROWS),
        out_tty ==> exists|reported: Option<(u16, u16)>|
            call_ensures(query, (), reported) && r == match reported {
                Some(size) => size,
                None => (DEFAULT_COLS, DEFAULT_ROWS),
            },
{
    if !out_tty {
        return (DEFAULT_COLS, DEFAULT_ROWS);
    }
    let reported = query();
    match reported {
        Some(size) => size,
        None => (DEFAULT_COLS, DEFAULT_ROWS),
    }
}

/// Raw mode can only be entered when stdout is a TTY.
pub fn check_raw_mode(out_tty: bool) -> (r: Result<(), PtyxError>)
    ensures
        r is Ok <==> out_tty,
        r matches Err(e) ==> e is NotAConsole,
{
    if !out_tty {
        return Err(PtyxError::NotAConsole);
    }
    Ok(())
}

/// Restoring a saved state touches the terminal only when stdout is a TTY;
/// otherwise it succeeds at once.
pub fn restore_touches_terminal(out_tty: bool) -> (r: bool)
    ensures
        r == out_tty,
{
    out_tty
}

/// The Windows input mode for raw mode: line input, echo and processed
/// input switched off, every other bit kept.
pub fn raw_input_mode(mode: u32) -> (r: u32)
    ensures
        r == mode & !(ENABLE_LINE_INPUT | ENABLE_ECHO_INPUT | ENABLE_PROCESSED_INPUT),
        r & ENABLE_LINE_INPUT == 0,
        r & ENABLE_ECHO_INPUT == 0,
        r & ENABLE_PROCESSED_INPUT == 0,
        r | (mode & 7u32) == mode,
{
    let r: u32 = mode & !(ENABLE_LINE_INPUT | ENABLE_ECHO_INPUT | ENABLE_PROCESSED_INPUT);
    assert(r == mode & !7u32) by (bit_vector)
        requires r == mode & !(2u32 | 4u32 | 1u32);
    assert(mode & !7u32 & 2u32 == 0 && mode & !7u32 & 4u32 == 0 && mode & !7u32 & 1u32 == 0)
        by (bit_vector);
    assert((mode & !7u32) | (mode & 7u32) == mode) by (bit_vector);
    r
}

/// The Windows output mode with virtual-terminal processing switched on,
/// every other bit kept.
pub fn vt_output_mode(mode: u32) -> (r: u32)
    ensures
        r == mode | ENABLE_VIRTUAL_TERMINAL_PROCESSING,
        r & ENABLE_VIRTUAL_TERMINAL_PROCESSING != 0,
        r & !ENABLE_VIRTUAL_TERMINAL_PROCESSING == mode & !ENABLE_VIRTUAL_TERMINAL_PROCESSING,
{
    let r: u32 = mode | ENABLE_VIRTUAL_TERMINAL_PROCESSING;
    assert((mode | 4u32) & 4u32 != 0) by (bit_vector);
    assert((mode | 4u32) & !4u32 == mode & !4u32) by (bit_vector);
    r
}

/// The size `(cols, rows)` of a Windows console window given its
/// inclusive edges: `right - left + 1` by `bottom - top + 1`, taken as
/// unsigned 16-bit numbers.
pub fn window_extent(left: i16, top: i16, right: i16, bottom: i16) -> (r: (u16, u16))
    requires
        i16::MIN <= right - left,
        right - left + 1 <= i16::MAX,
        i16::MIN <= bottom - top,
        bottom - top + 1 <= i16::MAX,
    ensures
        r == ((right - left + 1) as u16, (bottom - top + 1) as u16),
{
    let cols: u16 = (right - left + 1) as u16;
    let rows: u16 = (bottom - top + 1) as u16;
    (cols, rows)
}

} // verus!

//! Common SGR codes.

pub mod bg;
pub mod fg;

use vstd::prelude::*;

verus! {

/// Reset all attributes.
pub const RESET: u32 = 0;
/// Bold.
pub const BOLD: u32 = 1;
/// Dim.
pub const DIM: u32 = 2;
/// Italic.
pub const ITALIC: u32 = 3;
/// Underline.
pub const UNDERLINE: u32 = 4;
/// Blink.
pub const BLINK: u32 = 5;
/// Reverse video.
pub const REVERSE: u32 = 7;
/// Hidden.
pub const HIDDEN: u32 = 8;
/// Strikethrough.
pub const STRIKETHROUGH: u32 = 9;

} // verus!

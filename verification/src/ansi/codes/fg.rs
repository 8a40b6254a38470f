//! Foreground colors.

use vstd::prelude::*;

verus! {

pub const BLACK: u32 = 30;
pub const RED: u32 = 31;
pub const GREEN: u32 = 32;
pub const YELLOW: u32 = 33;
pub const BLUE: u32 = 34;
pub const MAGENTA: u32 = 35;
pub const CYAN: u32 = 36;
pub const WHITE: u32 = 37;
pub const DEFAULT: u32 = 39;

} // verus!

//! Background colors.

use vstd::prelude::*;

verus! {

pub const BLACK: u32 = 40;
pub const RED: u32 = 41;
pub const GREEN: u32 = 42;
pub const YELLOW: u32 = 43;
pub const BLUE: u32 = 44;
pub const MAGENTA: u32 = 45;
pub const CYAN: u32 = 46;
pub const WHITE: u32 = 47;
pub const DEFAULT: u32 = 49;

} // verus!

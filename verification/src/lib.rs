#![verifier::loop_isolation(false)]

pub mod display;
pub mod emulator;
pub mod fonts;
pub mod instruction;
pub mod keypad;
pub mod laws;
pub mod platform;
pub mod state;

use vstd::prelude::*;

verus! {

/// Width of the monochrome screen in pixels.
pub const SCREEN_WIDTH: usize = 64;

/// Height of the monochrome screen in pixels.
pub const SCREEN_HEIGHT: usize = 32;

} // verus!

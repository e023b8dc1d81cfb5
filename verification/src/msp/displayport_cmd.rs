//! The sub-commands of the DisplayPort function.

use vstd::prelude::*;

verus! {

pub const KEEPALIVE: u8 = 0;

pub const RELEASE: u8 = 1;

pub const CLEAR: u8 = 2;

pub const DRAW_STRING: u8 = 3;

pub const DRAW_SCREEN: u8 = 4;

} // verus!

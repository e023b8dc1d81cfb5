//! The MSP function numbers that the tool sends or answers.

use vstd::prelude::*;

verus! {

pub const VTX_CONFIG: u16 = 88;

pub const VTXTABLE_POWERLEVEL: u16 = 138;

pub const SET_VTXTABLE_POWERLEVEL: u16 = 228;

pub const VTXTABLE_BAND: u16 = 137;

pub const SET_VTXTABLE_BAND: u16 = 227;

pub const DEBUG: u16 = 254;

pub const STATUS: u16 = 101;

pub const RC: u16 = 105;

pub const PACALTABLE: u16 = 0x4800;

pub const SET_PACALTABLE: u16 = 0x4801;

pub const PACALIBRATION: u16 = 0x4802;

pub const SET_PACALIBRATION: u16 = 0x4803;

pub const DISPLAYPORT: u16 = 182;

pub const SET_OSD_CANVAS: u16 = 188;

} // verus!

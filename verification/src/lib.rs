//! Core of the VTX tool: the MSP wire format, the VTX table, the calibration
//! sweep and the decisions of the worker that drives the hardware.
//!
//! Every item here is verified. What needs a serial port, a clock, a window or
//! floating point stays with the application around this library, which hands
//! in plain values and carries out what comes back.

pub mod calibration;
pub mod calibration_engine;
pub mod calibration_page;
pub mod clock;
pub mod conn_status;
pub mod history;
pub mod logging;
pub mod msp;
pub mod nav;
pub mod overlay;
pub mod pa_table;
pub mod power;
pub mod power_meter;
pub mod settings;
pub mod state;
pub mod text;
pub mod vtx_table_page;
pub mod vtxtable;
pub mod worker;

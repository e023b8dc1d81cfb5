//! The worker that drives the VTX and the meter: what it does about the commands of
//! the user, the frames of the VTX and the passing of time.
//!
//! [`Worker`] opens and reads no port. Each of its functions takes what has happened,
//! and returns what is to be done about it.

use std::collections::VecDeque;
use vstd::prelude::*;
#[allow(unused_imports)]
use vstd::string::*;

use crate::calibration_engine::model::{outcome_ok, EngineView};
use crate::calibration_engine::safe_state_payload;
use crate::calibration_engine::types::{
    AfterSend,
    ConnectionLossReason,
    EngineState,
    Message,
    PollInput,
    PollOutcome,
    Samples,
    SweepResult,
};
use crate::calibration_engine::SweepEngine;
use crate::clock::{after, elapsed, moment_after, time_since};
use crate::conn_status::PortState;
use crate::msp::displayport_cmd;
use crate::msp::frame::{
    build_command_v1,
    build_command_v2,
    command_v1,
    command_v2,
    MspFrame,
    MspFrameView,
};
use crate::msp::function;
use crate::msp::laws::law_vtx_config_reads_back;
use crate::msp::link::MspLink;
use crate::msp::{
    decode_osd_canvas,
    decode_pa_calibration,
    decode_pa_calibration_reading,
    decode_vtx_config,
    encode_displayport_clear,
    encode_displayport_keepalive,
    encode_displayport_release,
    encode_pa_calibration,
    pa_calibration_bytes,
    pa_calibration_of,
    pa_calibration_reading_of,
    vtx_config_of,
    PaCalibration,
    PaCalibrationReading,
    PaCalibrationView,
    PayloadTooShort,
    VtxConfig,
};
use crate::overlay::{build_status_displayport_frames, payloads, status_frames};
use crate::pa_table::{
    apply_result,
    bias_of,
    entry_with_idx,
    frequencies_to_sweep,
    is_result_entry,
    level_targets,
    power_of,
    sign_inverted,
    spec_sign_inverted,
    stored_bias,
    swept_frequencies,
    targets_of,
    with_result,
};
use crate::power_meter::PowerMeterKind;
use crate::state::{MeterState, OsdState, VtxState, VtxStatus, VtxTableSyncState};
use crate::state::{DEFAULT_UPDATE_MILLIHZ, LEAST_UPDATE_MILLIHZ};
use crate::text::{push_time_of_day, time_of_day};
use crate::vtxtable::{VtxSelectionState, VtxTableConfig, VtxTableView};

pub mod laws;

verus! {

/// A device that was heard of within this time is ready.
pub const READY_WINDOW: u64 = 500_000_000;

/// The time between two attempts to open a port again.
pub const RECONNECT_INTERVAL: u64 = 1_000_000_000;

/// The time between two questions for the status of the VTX.
pub const VTX_STATUS_QUERY_INTERVAL: u64 = 250_000_000;

/// The time between two signs of life to the screen of the VTX.
pub const DISPLAYPORT_KEEPALIVE_INTERVAL: u64 = 2_000_000_000;

/// The time between two questions whether the meter is there.
pub const METER_ALIVE_INTERVAL: u64 = 100_000_000;

/// How long ago a meter counts as read when its port is opened.
pub const METER_HEAD_START: u64 = 1_000_000_000;

/// The time between two times that old samples are forgotten.
pub const HISTORY_TRIM_INTERVAL: u64 = 1_000_000_000;

/// The time between two times that the counts of frames are logged.
pub const TXRX_LOG_INTERVAL: u64 = 5_000_000_000;

/// A table is complete when none of its entries has come for this time, and an answer
/// that has not come within it does not come.
pub const QUIET_PERIOD: u64 = 300_000_000;

/// The baud rate of the VTX.
pub const VTX_BAUD: u32 = 115200;

/// A command for the VTX.
#[derive(Debug)]
pub struct Outgoing {
    pub is_v2: bool,
    pub function: u16,
    pub payload: Vec<u8>,
}

#[verifier::ext_equal]
pub struct OutgoingView {
    pub is_v2: bool,
    pub function: u16,
    pub payload: Seq<u8>,
}

impl View for Outgoing {
    type V = OutgoingView;

    open spec fn view(&self) -> OutgoingView {
        OutgoingView { is_v2: self.is_v2, function: self.function, payload: self.payload@ }
    }
}

pub open spec fn v1(function: u16, payload: Seq<u8>) -> OutgoingView {
    OutgoingView { is_v2: false, function, payload }
}

pub open spec fn v2(function: u16, payload: Seq<u8>) -> OutgoingView {
    OutgoingView { is_v2: true, function, payload }
}

impl Outgoing {
    /// The command on the wire.
    pub fn frame(&self) -> (r: Vec<u8>)
        ensures
            r@ == (if self.is_v2 {
                command_v2(self.function, self.payload@)
            } else {
                command_v1((self.function % 256) as u8, self.payload@)
            }),
    {
        if self.is_v2 {
            build_command_v2(self.function, Some(self.payload.as_slice()))
        } else {
            build_command_v1((self.function % 256) as u8, self.payload.as_slice())
        }
    }
}

pub open spec fn commands(v: Seq<Outgoing>) -> Seq<OutgoingView> {
    v.map_values(|o: Outgoing| o@)
}

/// Whether a device that was last heard of at `seen` is ready.
pub open spec fn heard_lately(seen: Option<u64>, now: u64) -> bool {
    seen matches Some(t) && elapsed(t, now) < READY_WINDOW
}

pub fn is_ready(seen: Option<u64>, now: u64) -> (r: bool)
    ensures
        r == heard_lately(seen, now),
{
    match seen {
        Some(t) => time_since(t, now) < READY_WINDOW,
        None => false,
    }
}

/// The state of an open port, by whether its device is ready.
pub open spec fn port_state_after(state: PortState, ready: bool) -> PortState {
    if ready {
        PortState::Ready
    } else if state is Ready {
        PortState::LostCommunication
    } else {
        state
    }
}

pub fn next_port_state(state: PortState, ready: bool) -> (r: PortState)
    ensures
        r == port_state_after(state, ready),
{
    if ready {
        PortState::Ready
    } else if state == PortState::Ready {
        PortState::LostCommunication
    } else {
        state
    }
}

/// What the VTX is told when its port is opened: pit mode, and where the overlay is on,
/// that its screen is in use and is to be cleared.
pub open spec fn connect_commands(
    overlay: bool,
    selection: VtxSelectionState,
    table: VtxTableView,
) -> Seq<OutgoingView> {
    let safe = v1(
        function::VTX_CONFIG,
        (VtxSelectionState { pitmode: true, ..selection }).config_bytes(table),
    );
    if overlay {
        seq![
            safe,
            v1(function::DISPLAYPORT, seq![displayport_cmd::KEEPALIVE]),
            v1(function::DISPLAYPORT, seq![displayport_cmd::CLEAR]),
        ]
    } else {
        seq![safe]
    }
}

/// The answer to a question for the VTX table, as a flight controller would give it:
/// none while the table is not ready or lacks bands or power levels.
pub open spec fn config_answer(
    ready: bool,
    selection: VtxSelectionState,
    table: VtxTableView,
) -> Option<Seq<u8>> {
    if !ready || table.bands.len() == 0 || table.power_levels.len() == 0 {
        None
    } else {
        Some(selection.config_bytes(table))
    }
}

/// What the VTX says it uses becomes what is selected.
pub open spec fn selection_of(c: VtxConfig) -> VtxSelectionState {
    VtxSelectionState {
        selected_band: c.band,
        selected_channel: c.channel,
        selected_power: c.power,
        selected_freq_mhz: c.frequency_mhz,
        pitmode: c.pitmode,
    }
}

pub open spec fn spec_status_of(r: PaCalibrationReading, table: Seq<PaCalibration>) -> VtxStatus {
    VtxStatus {
        level: r.power_level,
        power_mw: match entry_with_idx(table, r.power_level) {
            Some(e) => Some(e.m_w),
            None => None,
        },
        boost_on: r.boost_on,
        rtc6705_level: r.rtc6705_level,
        frequency_mhz: r.frequency_mhz,
        vbias_mv: r.vref_mv,
        detector_mv: r.detector_mv,
        pid_active: r.pid_active,
        session_active: r.session_active,
        mcu_temp_c_x10: None,
        ntc_raw: r.ntc_raw,
        pa_temp_c_x10: r.pa_temp_c_x10,
    }
}

/// The status that a reading reports, with the power that the table has for its level.
pub fn status_of(r: &PaCalibrationReading, table: &Vec<PaCalibration>) -> (s: VtxStatus)
    ensures
        s == spec_status_of(*r, table@),
{
    VtxStatus {
        level: r.power_level,
        power_mw: power_of(table, r.power_level),
        boost_on: r.boost_on,
        rtc6705_level: r.rtc6705_level,
        frequency_mhz: r.frequency_mhz,
        vbias_mv: r.vref_mv,
        detector_mv: r.detector_mv,
        pid_active: r.pid_active,
        session_active: r.session_active,
        mcu_temp_c_x10: None,
        ntc_raw: r.ntc_raw,
        pa_temp_c_x10: r.pa_temp_c_x10,
    }
}

/// The time of day, from the seconds since 1970.
pub fn format_time_hms(secs: u64) -> (r: String)
    ensures
        r@ == time_of_day(secs as nat),
{
    let mut r = String::new();
    push_time_of_day(&mut r, secs);
    assert(r@ =~= time_of_day(secs as nat));
    r
}

/// What a frame of the VTX calls for.
pub enum FrameAction {
    Nothing,
    /// This is to be sent; where that fails, the link is lost.
    Answer(Outgoing),
    /// The VTX said what it uses.
    ConfigTaken(VtxConfig),
    /// The VTX said something that cannot be read.
    ConfigUnreadable(PayloadTooShort),
    /// The VTX reported on the calibration.
    Reading(PaCalibrationReading),
}

/// Why a sweep was not started.
#[derive(Clone, Copy, Debug, PartialEq, Eq, Structural)]
pub enum StartError {
    NotConnected { vtx: PortState, meter: PortState },
    NoFrequencies,
    NoLevels,
}

/// A port state by its name.
pub open spec fn state_name(s: PortState) -> Seq<char> {
    match s {
        PortState::Disconnected => "Disconnected"@,
        PortState::Connecting => "Connecting"@,
        PortState::Ready => "Ready"@,
        PortState::LostCommunication => "LostCommunication"@,
        PortState::Disconnecting => "Disconnecting"@,
    }
}

fn name_of_state(s: PortState) -> (r: &'static str)
    ensures
        r@ == state_name(s),
{
    match s {
        PortState::Disconnected => "Disconnected",
        PortState::Connecting => "Connecting",
        PortState::Ready => "Ready",
        PortState::LostCommunication => "LostCommunication",
        PortState::Disconnecting => "Disconnecting",
    }
}

impl StartError {
    pub open spec fn words(self, command: Seq<char>) -> Seq<char> {
        match self {
            StartError::NotConnected { vtx, meter } => command
                + " requested while not fully connected (vtx="@ + state_name(vtx) + " meter="@
                + state_name(meter) + ")"@,
            StartError::NoFrequencies => command
                + ": no frequency breakpoints in the PA table -- Refresh it first"@,
            StartError::NoLevels => command + ": no power levels selected"@,
        }
    }

    /// The error in words, for the command that failed.
    pub fn message(&self, command: &str) -> (r: String)
        ensures
            r@ == self.words(command@),
    {
        let mut r = String::new();
        r.append(command);
        match *self {
            StartError::NotConnected { vtx, meter } => {
                r.append(" requested while not fully connected (vtx=");
                r.append(name_of_state(vtx));
                r.append(" meter=");
                r.append(name_of_state(meter));
                r.append(")");
            },
            StartError::NoFrequencies => {
                r.append(": no frequency breakpoints in the PA table -- Refresh it first");
            },
            StartError::NoLevels => {
                r.append(": no power levels selected");
            },
        }
        assert(r@ =~= self.words(command@));
        r
    }
}

/// How a sweep was started.
#[derive(Clone, Copy, Debug, PartialEq, Eq, Structural)]
pub enum Started {
    /// From where manual mode was.
    Resumed,
    Anew,
}

pub struct Worker {
    pub link: Option<MspLink>,
    pub meter_open: bool,
    pub vtx: VtxState,
    pub meter: MeterState,
    pub osd: OsdState,
    pub table_sync: VtxTableSyncState,
    pub sweep: Option<SweepEngine>,
    pub vtx_last_seen: Option<u64>,
    pub meter_last_seen: Option<u64>,
    pub vtx_port_path: Option<String>,
    pub meter_port_path: Option<String>,
    pub vtx_last_reconnect_attempt: u64,
    pub meter_last_reconnect_attempt: u64,
    pub last_status_query: u64,
    pub last_displayport_keepalive: u64,
    /// When the meter was last asked whether it is there; never, where it was opened since.
    pub last_meter_alive_check: Option<u64>,
    /// When the meter was last read, or opened since.
    pub last_meter_read: u64,
    /// How much of the time to the next reading counted as passed already.
    pub meter_read_head_start: u64,
    pub displayport_queue: VecDeque<Vec<u8>>,
    pub last_history_trim: u64,
    pub last_txrx_log: u64,
}

/// The sweep, where there is one.
pub open spec fn sweep_view(sweep: Option<SweepEngine>) -> Option<EngineView> {
    match sweep {
        Some(e) => Some(e@),
        None => None,
    }
}

pub open spec fn sweep_ok(sweep: Option<SweepEngine>) -> bool {
    sweep matches Some(e) ==> e.wf()
}

/// A new sweep of these levels.
pub open spec fn planned(
    levels: Seq<u8>,
    table: Seq<PaCalibration>,
    kind: PowerMeterKind,
) -> EngineView {
    EngineView::fresh(
        levels,
        swept_frequencies(table),
        spec_sign_inverted(table),
        level_targets(table, levels),
        kind.fastest_hz(),
    )
}

/// The sweep with the bias that the table holds for a point, where it holds one.
pub open spec fn with_stored_bias(
    e: EngineView,
    table: Seq<PaCalibration>,
    point: Option<(u8, usize)>,
) -> EngineView {
    match point {
        Some((level, freq_idx)) => match stored_bias(table, level, freq_idx as int) {
            Some(mv) => e.set_manual_dac(mv as i32),
            None => e,
        },
        None => e,
    }
}

pub open spec fn start_error(
    vtx: PortState,
    meter: PortState,
    levels: Seq<u8>,
    table: Seq<PaCalibration>,
) -> Option<StartError> {
    if !(vtx is Ready && meter is Ready) {
        Some(StartError::NotConnected { vtx, meter })
    } else if swept_frequencies(table).len() == 0 {
        Some(StartError::NoFrequencies)
    } else if levels.len() == 0 {
        Some(StartError::NoLevels)
    } else {
        None
    }
}

impl Worker {
    pub open spec fn wf(&self) -> bool {
        sweep_ok(self.sweep)
    }

    pub fn new(now: u64) -> (r: Self)
        ensures
            r.wf(),
            r.link is None,
            !r.meter_open,
            r.sweep is None,
            r.vtx.port_state is Disconnected,
            r.meter.port_state is Disconnected,
            r.vtx_last_seen is None,
            r.meter_last_seen is None,
            r.vtx_port_path is None,
            r.meter_port_path is None,
            r.vtx_last_reconnect_attempt == now,
            r.meter_last_reconnect_attempt == now,
            r.last_status_query == now,
            r.last_displayport_keepalive == now,
            r.last_history_trim == now,
            r.last_txrx_log == now,
            r.last_meter_alive_check == Some(now),
            r.last_meter_read == now,
            r.meter_read_head_start == 0,
            r.meter.kind is ImmersionRcV1,
            r.meter.update_millihz == DEFAULT_UPDATE_MILLIHZ,
            r.meter.pre_sweep_update_millihz is None,
            r.meter.reading_seq == 0,
            r.displayport_queue@.len() == 0,
            !r.vtx.ready,
            r.vtx.last_seen_at is None,
            r.vtx.status is None,
            r.vtx.config is None,
            r.vtx.pa_table@.len() == 0,
            r.osd.canvas is None,
            r.osd.keepalive_at is None,
            r.osd.debug_overlay_enabled,
            !r.table_sync.ready,
            !r.table_sync.synchronized,
    {
        Worker {
            link: None,
            meter_open: false,
            vtx: VtxState::default(),
            meter: MeterState::default(),
            osd: OsdState::default(),
            table_sync: VtxTableSyncState::default(),
            sweep: None,
            vtx_last_seen: None,
            meter_last_seen: None,
            vtx_port_path: None,
            meter_port_path: None,
            vtx_last_reconnect_attempt: now,
            meter_last_reconnect_attempt: now,
            last_status_query: now,
            last_displayport_keepalive: now,
            last_meter_alive_check: Some(now),
            last_meter_read: now,
            meter_read_head_start: 0,
            displayport_queue: VecDeque::new(),
            last_history_trim: now,
            last_txrx_log: now,
        }
    }

    /// Whether the histories are to be looked at now, and if so, whether what is old in
    /// them is to be forgotten: not while both ports are closed.
    pub fn history_trim_due(&mut self, now: u64) -> (r: Option<bool>)
        ensures
            ({
                let due = elapsed(old(self).last_history_trim, now) >= HISTORY_TRIM_INTERVAL;
                let closed = old(self).vtx.port_state is Disconnected && old(
                    self,
                ).meter.port_state is Disconnected;
                &&& r == (if due { Some(!closed) } else { None })
                &&& *final(self) == (if due {
                    Worker { last_history_trim: now, ..*old(self) }
                } else {
                    *old(self)
                })
            }),
    {
        if time_since(self.last_history_trim, now) < HISTORY_TRIM_INTERVAL {
            return None;
        }
        self.last_history_trim = now;
        Some(!(self.vtx.port_state.is_idle() && self.meter.port_state.is_idle()))
    }

    /// How many frames were sent and received, where that is to be logged now.
    pub fn counts_to_log(&mut self, now: u64) -> (r: Option<(u64, u64)>)
        ensures
            ({
                let due = old(self).link is Some && elapsed(old(self).last_txrx_log, now)
                    >= TXRX_LOG_INTERVAL;
                &&& r == (if due {
                    Some((old(self).link->0.tx_count, old(self).link->0.rx_count))
                } else {
                    None
                })
                &&& *final(self) == (if due {
                    Worker { last_txrx_log: now, ..*old(self) }
                } else {
                    *old(self)
                })
            }),
    {
        let counts = match &self.link {
            Some(link) => link.tx_rx_counts(),
            None => {
                return None;
            },
        };
        if time_since(self.last_txrx_log, now) < TXRX_LOG_INTERVAL {
            return None;
        }
        self.last_txrx_log = now;
        Some(counts)
    }

    /// The user wants the VTX connected. Says whether its port is to be opened: not
    /// where it is open already.
    pub fn connect_vtx(&mut self) -> (open: bool)
        ensures
            open == (old(self).link is None),
            *final(self) == (if open {
                Worker {
                    vtx: VtxState { port_state: PortState::Connecting, ..old(self).vtx },
                    ..*old(self)
                }
            } else {
                *old(self)
            }),
    {
        if self.link.is_some() {
            return false;
        }
        self.vtx.port_state = PortState::Connecting;
        true
    }

    /// The port of the VTX was opened, for the first time or again. Returns what is to
    /// be sent at once.
    pub fn vtx_opened(
        &mut self,
        port: String,
        now: u64,
        at: String,
        selection: &VtxSelectionState,
        table: &VtxTableConfig,
    ) -> (r: Vec<Outgoing>)
        ensures
            commands(r@) == connect_commands(
                old(self).osd.debug_overlay_enabled,
                *selection,
                table@,
            ),
            *final(self) == (Worker {
                link: Some(MspLink { can_send_at: now, tx_count: 0, rx_count: 0 }),
                vtx_last_seen: None,
                vtx_port_path: Some(port),
                vtx: VtxState { port_state: PortState::Ready, ..old(self).vtx },
                osd: if old(self).osd.debug_overlay_enabled {
                    OsdState { canvas: None, keepalive_at: Some(at), ..old(self).osd }
                } else {
                    old(self).osd
                },
                last_displayport_keepalive: if old(self).osd.debug_overlay_enabled {
                    now
                } else {
                    old(self).last_displayport_keepalive
                },
                displayport_queue: final(self).displayport_queue,
                ..*old(self)
            }),
            if old(self).osd.debug_overlay_enabled {
                final(self).displayport_queue@.len() == 0
            } else {
                final(self).displayport_queue == old(self).displayport_queue
            },
    {
        self.link = Some(MspLink::new(now));
        self.vtx_last_seen = None;
        self.vtx_port_path = Some(port);
        self.vtx.port_state = PortState::Ready;
        let mut r: Vec<Outgoing> = Vec::new();
        r.push(
            Outgoing {
                is_v2: false,
                function: function::VTX_CONFIG,
                payload: safe_state_payload(table, selection),
            },
        );
        if self.osd.debug_overlay_enabled {
            r.push(
                Outgoing {
                    is_v2: false,
                    function: function::DISPLAYPORT,
                    payload: encode_displayport_keepalive(),
                },
            );
            r.push(
                Outgoing {
                    is_v2: false,
                    function: function::DISPLAYPORT,
                    payload: encode_displayport_clear(),
                },
            );
            self.last_displayport_keepalive = now;
            self.osd.keepalive_at = Some(at);
            self.osd.canvas = None;
            self.displayport_queue.clear();
        }
        assert(commands(r@) =~= connect_commands(
            old(self).osd.debug_overlay_enabled,
            *selection,
            table@,
        ));
        r
    }

    /// The port of the VTX that the user wants cannot be opened.
    pub fn vtx_open_failed(&mut self)
        ensures
            *final(self) == (Worker {
                vtx: VtxState { port_state: PortState::Disconnected, ..old(self).vtx },
                ..*old(self)
            }),
    {
        self.vtx.port_state = PortState::Disconnected;
    }

    /// The user wants the VTX disconnected. Returns what is to be sent before its port
    /// is closed, or `None` where it is not open.
    pub fn disconnect_vtx(&mut self) -> (r: Option<Vec<Outgoing>>)
        ensures
            match r {
                Some(v) => old(self).link is Some && commands(v@) == (if old(
                    self,
                ).osd.debug_overlay_enabled {
                    seq![v1(function::DISPLAYPORT, seq![displayport_cmd::RELEASE])]
                } else {
                    seq![]
                }) && *final(self) == (Worker {
                    vtx: VtxState { port_state: PortState::Disconnecting, ..old(self).vtx },
                    ..*old(self)
                }),
                None => old(self).link is None && *final(self) == *old(self),
            },
    {
        if self.link.is_none() {
            return None;
        }
        self.vtx.port_state = PortState::Disconnecting;
        let mut v: Vec<Outgoing> = Vec::new();
        if self.osd.debug_overlay_enabled {
            v.push(
                Outgoing {
                    is_v2: false,
                    function: function::DISPLAYPORT,
                    payload: encode_displayport_release(),
                },
            );
            assert(commands(v@) =~= seq![
                v1(function::DISPLAYPORT, seq![displayport_cmd::RELEASE]),
            ]);
        } else {
            assert(commands(v@) =~= seq![]);
        }
        Some(v)
    }

    /// The port of the VTX was closed as the user wanted: the sweep is gone with it.
    pub fn vtx_closed(&mut self)
        ensures
            *final(self) == (Worker {
                link: None,
                vtx_last_seen: None,
                vtx_port_path: None,
                vtx: VtxState {
                    port_state: PortState::Disconnected,
                    ready: false,
                    status: None,
                    last_seen_at: None,
                    ..old(self).vtx
                },
                osd: OsdState { canvas: None, keepalive_at: None, ..old(self).osd },
                sweep: None,
                displayport_queue: final(self).displayport_queue,
                ..*old(self)
            }),
            final(self).displayport_queue@.len() == 0,
            final(self).wf(),
    {
        self.displayport_queue.clear();
        self.link = None;
        self.vtx_last_seen = None;
        self.vtx_port_path = None;
        self.vtx.port_state = PortState::Disconnected;
        self.vtx.ready = false;
        self.vtx.status = None;
        self.vtx.last_seen_at = None;
        self.osd.canvas = None;
        self.osd.keepalive_at = None;
        self.sweep = None;
    }

    /// The user wants a meter connected. Says whether its port is to be opened.
    pub fn connect_meter(&mut self, kind: PowerMeterKind) -> (open: bool)
        ensures
            open == !old(self).meter_open,
            *final(self) == (if open {
                Worker {
                    meter: MeterState {
                        port_state: PortState::Connecting,
                        ..old(self).meter.with_kind(kind).not_too_slow()
                    },
                    ..*old(self)
                }
            } else {
                *old(self)
            }),
    {
        if self.meter_open {
            return false;
        }
        self.meter.port_state = PortState::Connecting;
        self.meter.choose_kind(kind);
        if self.meter.update_millihz < LEAST_UPDATE_MILLIHZ {
            self.meter.update_millihz = LEAST_UPDATE_MILLIHZ;
        }
        true
    }

    /// The port of the meter was opened, for the first time or again. It is read as if
    /// it had last been read a while ago.
    pub fn meter_opened(&mut self, port: String, now: u64)
        ensures
            *final(self) == (Worker {
                meter_open: true,
                meter_last_seen: None,
                meter_port_path: Some(port),
                meter: MeterState { port_state: PortState::Ready, ..old(self).meter },
                last_meter_alive_check: None,
                last_meter_read: now,
                meter_read_head_start: METER_HEAD_START,
                ..*old(self)
            }),
    {
        self.meter_open = true;
        self.meter_last_seen = None;
        self.meter_port_path = Some(port);
        self.meter.port_state = PortState::Ready;
        self.last_meter_alive_check = None;
        self.last_meter_read = now;
        self.meter_read_head_start = METER_HEAD_START;
    }

    /// The port of the meter that the user wants cannot be opened.
    pub fn meter_open_failed(&mut self)
        ensures
            *final(self) == (Worker {
                meter: MeterState { port_state: PortState::Disconnected, ..old(self).meter },
                ..*old(self)
            }),
    {
        self.meter.port_state = PortState::Disconnected;
    }

    /// The user wants the meter disconnected. Says whether its port is to be closed.
    pub fn disconnect_meter(&mut self) -> (close: bool)
        ensures
            close == old(self).meter_open,
            *final(self) == (if close {
                Worker {
                    meter: MeterState { port_state: PortState::Disconnecting, ..old(self).meter },
                    ..*old(self)
                }
            } else {
                *old(self)
            }),
    {
        if !self.meter_open {
            return false;
        }
        self.meter.port_state = PortState::Disconnecting;
        true
    }

    /// The port of the meter was closed as the user wanted.
    pub fn meter_closed(&mut self)
        ensures
            *final(self) == (Worker {
                meter_open: false,
                meter_last_seen: None,
                meter_port_path: None,
                meter: MeterState { port_state: PortState::Disconnected, ..old(self).meter },
                ..*old(self)
            }),
    {
        self.meter_open = false;
        self.meter_last_seen = None;
        self.meter_port_path = None;
        self.meter.port_state = PortState::Disconnected;
    }

    /// The calibration table was read from the VTX: what the sweep had learnt of
    /// limits and cells goes with the old one.
    pub fn table_read(&mut self, table: Vec<PaCalibration>)
        requires
            old(self).wf(),
        ensures
            final(self).wf(),
            *final(self) == (Worker {
                vtx: VtxState { pa_table: table, ..old(self).vtx },
                sweep: final(self).sweep,
                ..*old(self)
            }),
            sweep_view(final(self).sweep) == (match old(self).sweep {
                Some(e) => Some(
                    EngineView {
                        hard_limits: Map::empty(),
                        cal_cells: Map::empty(),
                        det_cells: Map::empty(),
                        ..e@
                    },
                ),
                None => None,
            }),
    {
        self.vtx.pa_table = table;
        match &mut self.sweep {
            Some(engine) => {
                engine.clear_hard_limits();
                engine.clear_cell_status();
            },
            None => {},
        }
    }

    /// The VTX answered what it uses.
    pub fn config_read(&mut self, config: VtxConfig)
        ensures
            *final(self) == (Worker {
                vtx: VtxState { config: Some(config), ..old(self).vtx },
                ..*old(self)
            }),
    {
        self.vtx.config = Some(config);
    }

    /// What tells the VTX to use what is selected.
    pub fn push_config(&self, selection: &VtxSelectionState, table: &VtxTableConfig) -> (r: Option<
        Outgoing,
    >)
        ensures
            match r {
                Some(o) => self.link is Some && o@ == v1(
                    function::VTX_CONFIG,
                    selection.config_bytes(table@),
                ),
                None => self.link is None,
            },
    {
        if self.link.is_none() {
            return None;
        }
        Some(
            Outgoing {
                is_v2: false,
                function: function::VTX_CONFIG,
                payload: selection.encode_vtx_config_response(table),
            },
        )
    }

    fn can_start(&self, levels: &Vec<u8>) -> (r: Option<StartError>)
        ensures
            r == start_error(
                self.vtx.port_state,
                self.meter.port_state,
                levels@,
                self.vtx.pa_table@,
            ),
    {
        let (vtx, meter) = (self.vtx.port_state, self.meter.port_state);
        if !vtx.is_ready() || !meter.is_ready() {
            return Some(StartError::NotConnected { vtx, meter });
        }
        if frequencies_to_sweep(&self.vtx.pa_table).len() == 0 {
            return Some(StartError::NoFrequencies);
        }
        if levels.len() == 0 {
            return Some(StartError::NoLevels);
        }
        None
    }

    fn planned_sweep(&self, levels: Vec<u8>) -> (r: SweepEngine)
        requires
            levels@.len() * 14 <= usize::MAX,
        ensures
            r.wf(),
            r@ == planned(levels@, self.vtx.pa_table@, self.meter.kind),
    {
        let frequencies = frequencies_to_sweep(&self.vtx.pa_table);
        let targets = targets_of(&self.vtx.pa_table, &levels);
        proof {
            let (a, b) = (levels@.len() as int, frequencies@.len() as int);
            assert(a * b * 2 <= a * 14) by (nonlinear_arith)
                requires
                    0 <= a,
                    0 <= b <= 7,
            ;
        }
        SweepEngine::new(
            levels,
            frequencies,
            sign_inverted(&self.vtx.pa_table),
            targets,
            self.meter.kind.max_update_hz(),
        )
    }

    /// The user wants an automatic calibration of these levels. From manual mode it
    /// goes on where that was; else a sweep starts anew.
    pub fn start_sweep(&mut self, levels: Vec<u8>) -> (r: Result<Started, StartError>)
        requires
            old(self).wf(),
            levels@.len() * 14 <= usize::MAX,
        ensures
            final(self).wf(),
            *final(self) == (Worker {
                sweep: final(self).sweep,
                meter: final(self).meter,
                ..*old(self)
            }),
            ({
                let (vtx, meter) = (old(self).vtx.port_state, old(self).meter.port_state);
                let table = old(self).vtx.pa_table@;
                let in_manual = old(self).sweep matches Some(e) && e.state is Manual;
                let error = start_error(vtx, meter, levels@, table);
                if vtx is Ready && meter is Ready && in_manual {
                    &&& r == Ok::<Started, StartError>(Started::Resumed)
                    &&& final(self).meter == old(self).meter
                    &&& sweep_view(final(self).sweep) == Some(
                        old(self).sweep->0@.resume_automatic_from_current(),
                    )
                } else if error is Some {
                    &&& r == Err::<Started, StartError>(error->0)
                    &&& final(self).sweep == old(self).sweep
                    &&& final(self).meter == old(self).meter
                } else {
                    let e = planned(levels@, table, old(self).meter.kind).start(
                        old(self).meter.kind.spec_capability(),
                    );
                    &&& r == Ok::<Started, StartError>(Started::Anew)
                    &&& sweep_view(final(self).sweep) == Some(e)
                    &&& final(self).meter == old(self).meter.for_sweep(e.sweep_hz)
                }
            }),
    {
        let (vtx, meter) = (self.vtx.port_state, self.meter.port_state);
        if !vtx.is_ready() || !meter.is_ready() {
            return Err(StartError::NotConnected { vtx, meter });
        }
        match &mut self.sweep {
            Some(engine) => {
                if let EngineState::Manual = engine.state {
                    engine.resume_automatic_from_current();
                    return Ok(Started::Resumed);
                }
            },
            None => {},
        }
        if let Some(e) = self.can_start(&levels) {
            return Err(e);
        }
        let mut engine = self.planned_sweep(levels);
        engine.start(self.meter.kind.capability());
        self.meter.begin_sweep(engine.sweep_hz);
        self.sweep = Some(engine);
        Ok(Started::Anew)
    }

    /// The user wants to calibrate these levels by hand. The bias starts at what the
    /// table holds for the first point.
    pub fn start_manual(&mut self, levels: Vec<u8>) -> (r: Result<Started, StartError>)
        requires
            old(self).wf(),
            levels@.len() * 14 <= usize::MAX,
        ensures
            final(self).wf(),
            *final(self) == (Worker {
                sweep: final(self).sweep,
                meter: final(self).meter,
                ..*old(self)
            }),
            ({
                let table = old(self).vtx.pa_table@;
                let error = start_error(
                    old(self).vtx.port_state,
                    old(self).meter.port_state,
                    levels@,
                    table,
                );
                if error is Some {
                    &&& r == Err::<Started, StartError>(error->0)
                    &&& final(self).sweep == old(self).sweep
                    &&& final(self).meter == old(self).meter
                } else {
                    let e = with_stored_bias(
                        planned(levels@, table, old(self).meter.kind).start_manual(
                            old(self).meter.kind.spec_capability(),
                        ),
                        table,
                        Some((levels@[0], 0usize)),
                    );
                    &&& r == Ok::<Started, StartError>(Started::Anew)
                    &&& sweep_view(final(self).sweep) == Some(e)
                    &&& final(self).meter == old(self).meter.for_sweep(e.sweep_hz)
                }
            }),
    {
        if let Some(e) = self.can_start(&levels) {
            return Err(e);
        }
        let first = levels[0];
        let mut engine = self.planned_sweep(levels);
        engine.start_manual(self.meter.kind.capability());
        if let Some(mv) = bias_of(&self.vtx.pa_table, first, 0) {
            engine.set_manual_dac(mv as i32);
        }
        self.meter.begin_sweep(engine.sweep_hz);
        self.sweep = Some(engine);
        Ok(Started::Anew)
    }

    pub fn set_manual_dac(&mut self, mv: i32)
        requires
            old(self).wf(),
        ensures
            final(self).wf(),
            *final(self) == (Worker { sweep: final(self).sweep, ..*old(self) }),
            sweep_view(final(self).sweep) == (match old(self).sweep {
                Some(e) => Some(e@.set_manual_dac(mv)),
                None => None,
            }),
    {
        match &mut self.sweep {
            Some(engine) => {
                engine.set_manual_dac(mv);
            },
            None => {},
        }
    }

    fn take_stored_bias(&mut self, point: Option<(u8, usize)>)
        requires
            old(self).wf(),
            old(self).sweep is Some,
        ensures
            final(self).wf(),
            *final(self) == (Worker { sweep: final(self).sweep, ..*old(self) }),
            sweep_view(final(self).sweep) == Some(
                with_stored_bias(old(self).sweep->0@, old(self).vtx.pa_table@, point),
            ),
    {
        if let Some((level, freq_idx)) = point {
            if let Some(mv) = bias_of(&self.vtx.pa_table, level, freq_idx) {
                self.set_manual_dac(mv as i32);
            }
        }
    }

    /// The user accepts the current point of manual mode, with what the detector reads.
    /// The bias of the next one starts at what the table holds for it.
    pub fn manual_next(&mut self)
        requires
            old(self).wf(),
        ensures
            final(self).wf(),
            *final(self) == (Worker { sweep: final(self).sweep, ..*old(self) }),
            sweep_view(final(self).sweep) == (match old(self).sweep {
                Some(e) => {
                    let detector_mv = match old(self).vtx.status {
                        Some(s) => s.detector_mv,
                        None => 0,
                    };
                    Some(
                        with_stored_bias(
                            e@.manual_next(detector_mv),
                            old(self).vtx.pa_table@,
                            if e@.state is Manual {
                                e@.next_point()
                            } else {
                                None
                            },
                        ),
                    )
                },
                None => None,
            }),
    {
        let detector_mv: u16 = match self.vtx.status {
            Some(s) => s.detector_mv,
            None => 0,
        };
        let next = match &mut self.sweep {
            Some(engine) => engine.manual_next(detector_mv),
            None => {
                return;
            },
        };
        self.take_stored_bias(next);
    }

    pub fn exit_manual(&mut self)
        requires
            old(self).wf(),
        ensures
            final(self).wf(),
            *final(self) == (Worker {
                sweep: final(self).sweep,
                meter: old(self).meter.after_sweep(),
                ..*old(self)
            }),
            sweep_view(final(self).sweep) == (match old(self).sweep {
                Some(e) => Some(e@.exit_manual()),
                None => None,
            }),
    {
        match &mut self.sweep {
            Some(engine) => {
                engine.exit_manual();
            },
            None => {},
        }
        self.meter.end_sweep();
    }

    pub fn set_pa_boost(&mut self, on: bool)
        requires
            old(self).wf(),
        ensures
            final(self).wf(),
            *final(self) == (Worker { sweep: final(self).sweep, ..*old(self) }),
            sweep_view(final(self).sweep) == (match old(self).sweep {
                Some(e) => Some(e@.set_pa_boost(on)),
                None => None,
            }),
    {
        match &mut self.sweep {
            Some(engine) => {
                engine.set_pa_boost(on);
            },
            None => {},
        }
    }

    pub fn confirm_frequency(&mut self)
        requires
            old(self).wf(),
        ensures
            final(self).wf(),
            *final(self) == (Worker { sweep: final(self).sweep, ..*old(self) }),
            sweep_view(final(self).sweep) == (match old(self).sweep {
                Some(e) => Some(e@.confirm_frequency()),
                None => None,
            }),
    {
        match &mut self.sweep {
            Some(engine) => {
                engine.confirm_frequency();
            },
            None => {},
        }
    }

    pub fn abort_sweep(&mut self)
        requires
            old(self).wf(),
        ensures
            final(self).wf(),
            *final(self) == (Worker {
                sweep: final(self).sweep,
                meter: old(self).meter.after_sweep(),
                ..*old(self)
            }),
            sweep_view(final(self).sweep) == (match old(self).sweep {
                Some(e) => Some(e@.abort()),
                None => None,
            }),
    {
        match &mut self.sweep {
            Some(engine) => {
                engine.abort();
            },
            None => {},
        }
        self.meter.end_sweep();
    }

    /// The user skips points. In manual mode, the bias starts at what the table holds
    /// for the point that comes next.
    pub fn skip_multiple(&mut self, count: u32)
        requires
            old(self).wf(),
        ensures
            final(self).wf(),
            *final(self) == (Worker { sweep: final(self).sweep, ..*old(self) }),
            sweep_view(final(self).sweep) == (match old(self).sweep {
                Some(e) => Some(
                    with_stored_bias(
                        e@.skip_multiple(count as nat),
                        old(self).vtx.pa_table@,
                        e@.skip_multiple_result(count as nat),
                    ),
                ),
                None => None,
            }),
    {
        let next = match &mut self.sweep {
            Some(engine) => engine.skip_multiple(count),
            None => {
                return;
            },
        };
        self.take_stored_bias(next);
    }

    /// What writes the calibration table to the VTX: its power levels, one by one.
    pub fn table_commands(&self) -> (r: Vec<Outgoing>)
        ensures
            commands(r@) == level_entries(self.vtx.pa_table@).map_values(
                |e: PaCalibration| v2(function::SET_PACALTABLE, pa_calibration_bytes(e@)),
            ),
    {
        let mut r: Vec<Outgoing> = Vec::new();
        let ghost table = self.vtx.pa_table@;
        let ghost write = |e: PaCalibration|
            v2(function::SET_PACALTABLE, pa_calibration_bytes(e@));
        let mut i: usize = 0;
        assert(level_entries(table.take(0)) =~= seq![]);
        assert(commands(r@) =~= level_entries(table.take(0)).map_values(write));
        while i < self.vtx.pa_table.len()
            invariant
                i <= table.len(),
                table == self.vtx.pa_table@,
                write == |e: PaCalibration|
                    v2(function::SET_PACALTABLE, pa_calibration_bytes(e@)),
                commands(r@) == level_entries(table.take(i as int)).map_values(write),
            decreases table.len() - i,
        {
            let ghost before = r@;
            assert(table.take(i + 1).drop_last() =~= table.take(i as int));
            if self.vtx.pa_table[i].idx > 0 {
                let o = Outgoing {
                    is_v2: true,
                    function: function::SET_PACALTABLE,
                    payload: encode_pa_calibration(&self.vtx.pa_table[i]),
                };
                r.push(o);
                assert(commands(r@) =~= commands(before).push(o@));
                assert(level_entries(table.take(i + 1)).map_values(write) =~= level_entries(
                    table.take(i as int),
                ).map_values(write).push(write(table[i as int])));
            }
            i = i + 1;
        }
        assert(table.take(i as int) =~= table);
        r
    }

    /// What resets the calibration of the VTX.
    pub fn erase_command(&self) -> (r: Option<Outgoing>)
        ensures
            match r {
                Some(o) => self.link is Some && o@ == v2(function::SET_PACALTABLE, seq![0xFFu8]),
                None => self.link is None,
            },
    {
        if self.link.is_none() {
            return None;
        }
        let payload: Vec<u8> = vec![0xFF];
        assert(payload@ =~= seq![0xFFu8]);
        Some(Outgoing { is_v2: true, function: function::SET_PACALTABLE, payload })
    }

    /// The question for the status of the VTX, where it is due and the link is free.
    pub fn status_query(&mut self, now: u64) -> (r: Option<Outgoing>)
        ensures
            ({
                let due = old(self).link matches Some(l) && l.free(now) && elapsed(
                    old(self).last_status_query,
                    now,
                ) >= VTX_STATUS_QUERY_INTERVAL;
                &&& r is Some <==> due
                &&& r matches Some(o) ==> o@ == v2(function::PACALIBRATION, seq![])
                &&& *final(self) == (if due {
                    Worker { last_status_query: now, ..*old(self) }
                } else {
                    *old(self)
                })
            }),
    {
        match &self.link {
            Some(link) => {
                if time_since(self.last_status_query, now) < VTX_STATUS_QUERY_INTERVAL
                    || !link.can_send_now(now) {
                    return None;
                }
            },
            None => {
                return None;
            },
        }
        self.last_status_query = now;
        let payload: Vec<u8> = Vec::new();
        assert(payload@ =~= seq![]);
        Some(Outgoing { is_v2: true, function: function::PACALIBRATION, payload })
    }

    /// The sign of life to the screen of the VTX, where the overlay is on, it is due and
    /// the link is free.
    pub fn displayport_keepalive(&mut self, now: u64, at: String) -> (r: Option<Outgoing>)
        ensures
            ({
                let due = old(self).osd.debug_overlay_enabled && (old(self).link matches Some(l)
                    && l.free(now)) && elapsed(old(self).last_displayport_keepalive, now)
                    >= DISPLAYPORT_KEEPALIVE_INTERVAL;
                &&& r is Some <==> due
                &&& r matches Some(o) ==> o@ == v1(
                    function::DISPLAYPORT,
                    seq![displayport_cmd::KEEPALIVE],
                )
                &&& *final(self) == (if due {
                    Worker {
                        last_displayport_keepalive: now,
                        osd: OsdState { keepalive_at: Some(at), ..old(self).osd },
                        ..*old(self)
                    }
                } else {
                    *old(self)
                })
            }),
    {
        if !self.osd.debug_overlay_enabled {
            return None;
        }
        match &self.link {
            Some(link) => {
                if time_since(self.last_displayport_keepalive, now) < DISPLAYPORT_KEEPALIVE_INTERVAL
                    || !link.can_send_now(now) {
                    return None;
                }
            },
            None => {
                return None;
            },
        }
        self.last_displayport_keepalive = now;
        self.osd.keepalive_at = Some(at);
        Some(
            Outgoing {
                is_v2: false,
                function: function::DISPLAYPORT,
                payload: encode_displayport_keepalive(),
            },
        )
    }

    /// The next of what is to be drawn on the screen of the VTX, where the link is free.
    /// Where the overlay is off, nothing is.
    pub fn next_displayport_frame(&mut self, now: u64) -> (r: Option<Outgoing>)
        ensures
            ({
                let queue = old(self).displayport_queue@;
                let on = old(self).osd.debug_overlay_enabled;
                let free = old(self).link matches Some(l) && l.free(now);
                &&& r is Some <==> on && free && queue.len() > 0
                &&& r matches Some(o) ==> o@ == v1(function::DISPLAYPORT, queue[0]@)
                &&& final(self).displayport_queue@ == (if r is Some {
                    queue.skip(1)
                } else if old(self).link is Some && !on {
                    seq![]
                } else {
                    queue
                })
                &&& *final(self) == (Worker {
                    displayport_queue: final(self).displayport_queue,
                    ..*old(self)
                })
            }),
    {
        let free = match &self.link {
            Some(link) => link.can_send_now(now),
            None => {
                return None;
            },
        };
        if !self.osd.debug_overlay_enabled {
            self.displayport_queue.clear();
            assert(self.displayport_queue@ =~= seq![]);
            return None;
        }
        if !free {
            return None;
        }
        let ghost queue = self.displayport_queue@;
        match self.displayport_queue.pop_front() {
            Some(payload) => {
                assert(self.displayport_queue@ =~= queue.skip(1));
                Some(Outgoing { is_v2: false, function: function::DISPLAYPORT, payload })
            },
            None => None,
        }
    }
}

/// The entries of the table that are power levels.
pub open spec fn level_entries(table: Seq<PaCalibration>) -> Seq<PaCalibration>
    decreases table.len(),
{
    if table.len() == 0 {
        seq![]
    } else if table.last().idx > 0 {
        level_entries(table.drop_last()).push(table.last())
    } else {
        level_entries(table.drop_last())
    }
}

/// What a frame of the VTX does to the selection.
pub open spec fn selection_after(sel: VtxSelectionState, f: MspFrameView) -> VtxSelectionState {
    if f.function == function::VTX_CONFIG && f.payload.len() >= 15 {
        selection_of(vtx_config_of(f.payload))
    } else {
        sel
    }
}

/// The canvas that a frame of the VTX reports.
pub open spec fn canvas_after(canvas: Option<(u8, u8)>, f: MspFrameView) -> Option<(u8, u8)> {
    if f.function == function::SET_OSD_CANVAS && f.payload.len() >= 2 {
        Some((f.payload[0], f.payload[1]))
    } else {
        canvas
    }
}

/// What a frame of the VTX reports of the calibration.
pub open spec fn reading_in(f: MspFrameView) -> Option<PaCalibrationReading> {
    if f.function == function::PACALIBRATION && f.payload.len() >= 5 {
        Some(pa_calibration_reading_of(f.payload))
    } else {
        None
    }
}

/// What is drawn on the screen of the VTX for a new status: nothing, while what was
/// drawn before is not all sent.
pub open spec fn queue_after(
    queue: Seq<Seq<u8>>,
    overlay: bool,
    status: VtxStatus,
) -> Seq<Seq<u8>> {
    if overlay && queue.len() == 0 {
        seq![seq![displayport_cmd::CLEAR]] + status_frames(status)
    } else {
        queue
    }
}

impl Worker {
    /// A frame of the VTX came in at `now`. It shows that the VTX is there, and is
    /// answered or taken note of by what it is.
    pub fn frame_received(
        &mut self,
        frame: &MspFrame,
        now: u64,
        at: String,
        selection: &mut VtxSelectionState,
        table: &VtxTableConfig,
    ) -> (r: FrameAction)
        ensures
            ({
                let f = frame@;
                let reading = reading_in(f);
                let status = match reading {
                    Some(rd) => Some(spec_status_of(rd, old(self).vtx.pa_table@)),
                    None => old(self).vtx.status,
                };
                &&& *final(selection) == selection_after(*old(selection), f)
                &&& *final(self) == (Worker {
                    vtx_last_seen: Some(now),
                    vtx: VtxState { last_seen_at: Some(at), status, ..old(self).vtx },
                    osd: OsdState { canvas: canvas_after(old(self).osd.canvas, f), ..old(self).osd },
                    displayport_queue: final(self).displayport_queue,
                    ..*old(self)
                })
                &&& payloads(final(self).displayport_queue@) == (match reading {
                    Some(rd) => queue_after(
                        payloads(old(self).displayport_queue@),
                        old(self).osd.debug_overlay_enabled,
                        spec_status_of(rd, old(self).vtx.pa_table@),
                    ),
                    None => payloads(old(self).displayport_queue@),
                })
            }),
            match r {
                FrameAction::Answer(o) => frame@.function == function::VTX_CONFIG
                    && frame@.payload.len() == 0 && config_answer(
                    old(self).table_sync.ready,
                    *old(selection),
                    table@,
                ) == Some(o@.payload) && o@ == v1(function::VTX_CONFIG, o@.payload),
                FrameAction::ConfigTaken(c) => frame@.function == function::VTX_CONFIG
                    && frame@.payload.len() >= 15 && c == vtx_config_of(frame@.payload),
                FrameAction::ConfigUnreadable(e) => frame@.function == function::VTX_CONFIG && 0
                    < frame@.payload.len() < 15 && e.kind is VtxConfig && e.len
                    == frame@.payload.len(),
                FrameAction::Reading(rd) => reading_in(frame@) == Some(rd),
                FrameAction::Nothing => reading_in(frame@) is None && (frame@.function
                    == function::VTX_CONFIG ==> frame@.payload.len() == 0 && config_answer(
                    old(self).table_sync.ready,
                    *old(selection),
                    table@,
                ) is None),
            },
    {
        self.vtx_last_seen = Some(now);
        self.vtx.last_seen_at = Some(at);
        let payload = frame.payload.as_slice();
        if frame.function == function::VTX_CONFIG && payload.len() == 0 {
            if table.bands.len() == 0 || table.power_levels.len() == 0 || !self.table_sync.ready {
                return FrameAction::Nothing;
            }
            return FrameAction::Answer(
                Outgoing {
                    is_v2: false,
                    function: function::VTX_CONFIG,
                    payload: selection.encode_vtx_config_response(table),
                },
            );
        }
        if frame.function == function::VTX_CONFIG {
            return match decode_vtx_config(payload) {
                Ok(c) => {
                    selection.selected_band = c.band;
                    selection.selected_channel = c.channel;
                    selection.selected_power = c.power;
                    selection.selected_freq_mhz = c.frequency_mhz;
                    selection.pitmode = c.pitmode;
                    FrameAction::ConfigTaken(c)
                },
                Err(e) => FrameAction::ConfigUnreadable(e),
            };
        }
        if frame.function == function::SET_OSD_CANVAS {
            if let Some(canvas) = decode_osd_canvas(payload) {
                self.osd.canvas = Some(canvas);
            }
            return FrameAction::Nothing;
        }
        if frame.function == function::PACALIBRATION {
            if let Ok(reading) = decode_pa_calibration_reading(payload) {
                let status = status_of(&reading, &self.vtx.pa_table);
                self.vtx.status = Some(status);
                if self.osd.debug_overlay_enabled {
                    self.queue_status(&status);
                }
                return FrameAction::Reading(reading);
            }
        }
        FrameAction::Nothing
    }

    fn queue_status(&mut self, status: &VtxStatus)
        ensures
            *final(self) == (Worker {
                displayport_queue: final(self).displayport_queue,
                ..*old(self)
            }),
            payloads(final(self).displayport_queue@) == queue_after(
                payloads(old(self).displayport_queue@),
                true,
                *status,
            ),
    {
        if self.displayport_queue.len() > 0 {
            return;
        }
        let frames = build_status_displayport_frames(status);
        self.displayport_queue.push_back(encode_displayport_clear());
        let ghost want = seq![seq![displayport_cmd::CLEAR]] + payloads(frames@);
        let mut i: usize = 0;
        assert(payloads(self.displayport_queue@) =~= want.take(1));
        while i < frames.len()
            invariant
                i <= frames@.len(),
                want == seq![seq![displayport_cmd::CLEAR]] + payloads(frames@),
                payloads(self.displayport_queue@) == want.take(i + 1),
                *self == (Worker { displayport_queue: self.displayport_queue, ..*old(self) }),
            decreases frames@.len() - i,
        {
            let ghost before = self.displayport_queue@;
            let payload = copy_of(&frames[i]);
            self.displayport_queue.push_back(payload);
            assert(payloads(self.displayport_queue@) =~= payloads(before).push(payload@));
            assert(want.take(i + 2) =~= want.take(i + 1).push(frames@[i as int]@));
            i = i + 1;
        }
        assert(want.take(frames@.len() as int + 1) =~= want);
    }

    /// The answer to the question for the VTX table was sent.
    pub fn answered(&mut self)
        ensures
            *final(self) == (Worker {
                table_sync: VtxTableSyncState { synchronized: true, ..old(self).table_sync },
                ..*old(self)
            }),
    {
        self.table_sync.synchronized = true;
    }

    /// The link to the VTX is gone.
    pub fn vtx_link_lost(&mut self)
        requires
            old(self).wf(),
        ensures
            final(self).wf(),
            *final(self) == (Worker {
                link: None,
                vtx_last_seen: None,
                vtx: VtxState {
                    port_state: PortState::LostCommunication,
                    ready: false,
                    ..old(self).vtx
                },
                sweep: final(self).sweep,
                ..*old(self)
            }),
            sweep_view(final(self).sweep) == (match old(self).sweep {
                Some(e) => Some(e@.force_connection_lost(ConnectionLossReason::Vtx)),
                None => None,
            }),
    {
        self.link = None;
        self.vtx_last_seen = None;
        self.vtx.port_state = PortState::LostCommunication;
        self.vtx.ready = false;
        match &mut self.sweep {
            Some(engine) => {
                engine.force_connection_lost(ConnectionLossReason::Vtx);
            },
            None => {},
        }
    }

    /// Where the port of the VTX is open, takes note of whether the VTX is there.
    pub fn watch_vtx(&mut self, now: u64)
        ensures
            *final(self) == (if old(self).link is Some {
                let ready = heard_lately(old(self).vtx_last_seen, now);
                Worker {
                    vtx: VtxState {
                        ready,
                        port_state: port_state_after(old(self).vtx.port_state, ready),
                        ..old(self).vtx
                    },
                    ..*old(self)
                }
            } else {
                *old(self)
            }),
    {
        if self.link.is_some() {
            let ready = is_ready(self.vtx_last_seen, now);
            self.vtx.ready = ready;
            self.vtx.port_state = next_port_state(self.vtx.port_state, ready);
        }
    }

    /// The port of the VTX that is to be opened again, where it was lost and an attempt
    /// is due.
    pub fn vtx_to_reopen(&mut self, now: u64) -> (r: Option<String>)
        ensures
            ({
                let due = old(self).link is None && old(self).vtx_port_path is Some && old(
                    self,
                ).vtx.port_state is LostCommunication && elapsed(
                    old(self).vtx_last_reconnect_attempt,
                    now,
                ) >= RECONNECT_INTERVAL;
                &&& r is Some <==> due
                &&& due ==> r == old(self).vtx_port_path
                &&& *final(self) == (if due {
                    Worker { vtx_last_reconnect_attempt: now, ..*old(self) }
                } else {
                    *old(self)
                })
            }),
    {
        if self.link.is_some() || self.vtx.port_state != PortState::LostCommunication {
            return None;
        }
        if time_since(self.vtx_last_reconnect_attempt, now) < RECONNECT_INTERVAL {
            return None;
        }
        match &self.vtx_port_path {
            Some(path) => {
                let path = path.clone();
                self.vtx_last_reconnect_attempt = now;
                Some(path)
            },
            None => None,
        }
    }

    pub open spec fn poll_input(
        &self,
        now: u64,
        reading: Option<PaCalibrationReading>,
        samples: Samples,
    ) -> PollInput {
        PollInput {
            now,
            can_send: self.link matches Some(l) && l.free(now),
            reading_seq: self.meter.reading_seq,
            latest_reading: reading,
            vtx_ready: heard_lately(self.vtx_last_seen, now),
            meter_ready: heard_lately(self.meter_last_seen, now),
            samples,
        }
    }

    /// One turn of the sweep, where there is one and the port of the VTX is open.
    pub fn poll_sweep(
        &mut self,
        now: u64,
        reading: Option<PaCalibrationReading>,
        samples: Samples,
    ) -> (r: Option<PollOutcome>)
        requires
            old(self).wf(),
        ensures
            final(self).wf(),
            *final(self) == (Worker { sweep: final(self).sweep, ..*old(self) }),
            r is Some <==> old(self).link is Some && old(self).sweep is Some,
            r is None ==> final(self).sweep == old(self).sweep,
            r matches Some(outcome) ==> {
                let (e, o) = old(self).sweep->0@.poll(old(self).poll_input(now, reading, samples));
                &&& outcome == o
                &&& sweep_view(final(self).sweep) == Some(e)
                &&& outcome_ok(o, e)
            },
    {
        let can_send = match &self.link {
            Some(link) => link.can_send_now(now),
            None => {
                return None;
            },
        };
        let inp = PollInput {
            now,
            can_send,
            reading_seq: self.meter.reading_seq,
            latest_reading: reading,
            vtx_ready: is_ready(self.vtx_last_seen, now),
            meter_ready: is_ready(self.meter_last_seen, now),
            samples,
        };
        match &mut self.sweep {
            Some(engine) => Some(engine.poll(&inp)),
            None => None,
        }
    }

    /// What the sweep wanted sent went out.
    pub fn sweep_sent(&mut self, message: &Message, after: AfterSend, now: u64)
        requires
            old(self).wf(),
            old(self).sweep matches Some(e) ==> e@.can_take(after),
        ensures
            final(self).wf(),
            *final(self) == (Worker {
                sweep: final(self).sweep,
                link: final(self).link,
                ..*old(self)
            }),
            old(self).link is Some && old(self).sweep is Some ==> {
                &&& sweep_view(final(self).sweep) == Some(old(self).sweep->0@.sent(after, now))
                &&& final(self).link == Some(
                    old(self).link->0.after_sending(message.spec_kind(), now),
                )
            },
            !(old(self).link is Some && old(self).sweep is Some) ==> final(self).sweep == old(
                self,
            ).sweep && final(self).link == old(self).link,
    {
        let mut link = match self.link {
            Some(link) => link,
            None => {
                return;
            },
        };
        match &mut self.sweep {
            Some(engine) => {
                engine.sent(&mut link, message, after, now);
                self.link = Some(link);
            },
            None => {},
        }
    }

    /// The detector voltage that the sweep wanted interpolated.
    pub fn sweep_interpolated(&mut self, detector_mv: u16)
        requires
            old(self).wf(),
            old(self).sweep matches Some(e) ==> e@.levels.len() > 0 && e@.frequencies.len() > 0,
        ensures
            final(self).wf(),
            *final(self) == (Worker { sweep: final(self).sweep, ..*old(self) }),
            sweep_view(final(self).sweep) == (match old(self).sweep {
                Some(e) => Some(e@.finish_scan_detector(detector_mv, true)),
                None => None,
            }),
    {
        match &mut self.sweep {
            Some(engine) => {
                engine.interpolated(detector_mv);
            },
            None => {},
        }
    }

    /// What a poll has left: what the sweep has found goes into the table, and once it is
    /// over, the meter is read as often as before it. Returns the frequency that the
    /// meter is to be set to, if any.
    pub fn after_poll(&mut self, was_active: bool) -> (r: Option<u32>)
        requires
            old(self).wf(),
        ensures
            final(self).wf(),
            *final(self) == (Worker {
                sweep: final(self).sweep,
                vtx: VtxState { pa_table: final(self).vtx.pa_table, ..old(self).vtx },
                meter: final(self).meter,
                ..*old(self)
            }),
            match old(self).sweep {
                None => r is None && *final(self) == *old(self),
                Some(e) => {
                    &&& r == e@.pending_meter_frequency
                    &&& final(self).meter == (if was_active && !e@.is_active() {
                        old(self).meter.after_sweep()
                    } else {
                        old(self).meter
                    })
                    &&& sweep_view(final(self).sweep) == Some(
                        EngineView {
                            pending_meter_frequency: None,
                            pending_result: None,
                            ..e@
                        },
                    )
                    &&& e@.pending_result is None ==> final(self).vtx.pa_table == old(
                        self,
                    ).vtx.pa_table
                    &&& e@.pending_result matches Some(result) ==> result_applied(
                        old(self).vtx.pa_table@,
                        final(self).vtx.pa_table@,
                        result,
                    )
                },
            },
    {
        let mut result = None;
        let mut frequency = None;
        let mut over = false;
        match &mut self.sweep {
            Some(engine) => {
                frequency = engine.pending_meter_frequency;
                over = was_active && !engine.is_active();
                result = engine.pending_result;
                engine.pending_meter_frequency = None;
                engine.pending_result = None;
            },
            None => {},
        }
        if let Some(result) = result {
            apply_result(&mut self.vtx.pa_table, &result);
        }
        if over {
            self.meter.end_sweep();
        }
        frequency
    }

    /// Whether the meter is to be read now.
    pub fn meter_read_due(&mut self, now: u64) -> (r: bool)
        ensures
            r == (old(self).meter_open && elapsed(old(self).last_meter_read, now) + old(
                self,
            ).meter_read_head_start >= old(self).meter.interval()),
            *final(self) == (if r {
                Worker { last_meter_read: now, meter_read_head_start: 0, ..*old(self) }
            } else {
                *old(self)
            }),
    {
        if !self.meter_open {
            return false;
        }
        let interval = self.meter.read_interval();
        if interval > self.meter_read_head_start && time_since(self.last_meter_read, now)
            < interval - self.meter_read_head_start {
            return false;
        }
        self.last_meter_read = now;
        self.meter_read_head_start = 0;
        true
    }

    /// A reading of the meter came in.
    pub fn meter_read(&mut self)
        ensures
            *final(self) == (Worker {
                meter: MeterState {
                    reading_seq: old(self).meter.reading_seq.wrapping_add(1),
                    ..old(self).meter
                },
                ..*old(self)
            }),
    {
        self.meter.reading_seq = self.meter.reading_seq.wrapping_add(1);
    }

    /// Whether the meter is to be asked now whether it is there.
    pub fn meter_check_due(&mut self, now: u64) -> (r: bool)
        ensures
            r == (old(self).meter_open && (old(self).last_meter_alive_check matches Some(t)
                ==> elapsed(t, now) >= METER_ALIVE_INTERVAL)),
            *final(self) == (if r {
                Worker { last_meter_alive_check: Some(now), ..*old(self) }
            } else {
                *old(self)
            }),
    {
        if !self.meter_open {
            return false;
        }
        if let Some(t) = self.last_meter_alive_check {
            if time_since(t, now) < METER_ALIVE_INTERVAL {
                return false;
            }
        }
        self.last_meter_alive_check = Some(now);
        true
    }

    /// The meter answered.
    pub fn meter_alive(&mut self, now: u64)
        ensures
            *final(self) == (Worker { meter_last_seen: Some(now), ..*old(self) }),
    {
        self.meter_last_seen = Some(now);
    }

    /// The link to the meter is gone.
    pub fn meter_link_lost(&mut self)
        requires
            old(self).wf(),
        ensures
            final(self).wf(),
            *final(self) == (Worker {
                meter_open: false,
                meter_last_seen: None,
                meter: MeterState {
                    port_state: PortState::LostCommunication,
                    ..old(self).meter
                },
                sweep: final(self).sweep,
                ..*old(self)
            }),
            sweep_view(final(self).sweep) == (match old(self).sweep {
                Some(e) => Some(e@.force_connection_lost(ConnectionLossReason::Meter)),
                None => None,
            }),
    {
        self.meter_open = false;
        self.meter_last_seen = None;
        self.meter.port_state = PortState::LostCommunication;
        match &mut self.sweep {
            Some(engine) => {
                engine.force_connection_lost(ConnectionLossReason::Meter);
            },
            None => {},
        }
    }

    /// Where the port of the meter is open, takes note of whether the meter is there.
    pub fn watch_meter(&mut self, now: u64)
        ensures
            *final(self) == (if old(self).meter_open {
                Worker {
                    meter: MeterState {
                        port_state: port_state_after(
                            old(self).meter.port_state,
                            heard_lately(old(self).meter_last_seen, now),
                        ),
                        ..old(self).meter
                    },
                    ..*old(self)
                }
            } else {
                *old(self)
            }),
    {
        if self.meter_open {
            let ready = is_ready(self.meter_last_seen, now);
            self.meter.port_state = next_port_state(self.meter.port_state, ready);
        }
    }

    /// The port and the kind of the meter that is to be opened again, where it was lost
    /// and an attempt is due.
    pub fn meter_to_reopen(&mut self, now: u64) -> (r: Option<(String, PowerMeterKind)>)
        ensures
            ({
                let due = !old(self).meter_open && old(self).meter_port_path is Some && old(
                    self,
                ).meter.port_state is LostCommunication && elapsed(
                    old(self).meter_last_reconnect_attempt,
                    now,
                ) >= RECONNECT_INTERVAL;
                &&& r is Some <==> due
                &&& r matches Some((path, kind)) ==> Some(path) == old(self).meter_port_path && kind
                    == old(self).meter.kind
                &&& *final(self) == (if due {
                    Worker { meter_last_reconnect_attempt: now, ..*old(self) }
                } else {
                    *old(self)
                })
            }),
    {
        if self.meter_open || self.meter.port_state != PortState::LostCommunication {
            return None;
        }
        if time_since(self.meter_last_reconnect_attempt, now) < RECONNECT_INTERVAL {
            return None;
        }
        match &self.meter_port_path {
            Some(path) => {
                let path = path.clone();
                self.meter_last_reconnect_attempt = now;
                Some((path, self.meter.kind))
            },
            None => None,
        }
    }
}

/// Both tables are the same but for what the sweep has found.
pub open spec fn result_applied(
    before: Seq<PaCalibration>,
    now: Seq<PaCalibration>,
    result: SweepResult,
) -> bool {
    &&& now.len() == before.len()
    &&& forall|i: int|
        0 <= i < before.len() ==> (#[trigger] now[i])@ == (if result.success && is_result_entry(
            before,
            result,
            i,
        ) {
            with_result(before[i]@, result)
        } else {
            before[i]@
        })
}

fn copy_of(v: &Vec<u8>) -> (r: Vec<u8>)
    ensures
        r@ == v@,
{
    let mut r: Vec<u8> = Vec::new();
    r.extend_from_slice(v.as_slice());
    assert(r@ =~= v@);
    r
}

/// The views of the entries of a table.
pub open spec fn entry_views(table: Seq<PaCalibration>) -> Seq<PaCalibrationView> {
    table.map_values(|e: PaCalibration| e@)
}

/// The time from `now` to a deadline, unless it is over.
pub open spec fn time_left(deadline: u64, now: u64) -> Option<u64> {
    if now < deadline {
        Some((deadline - now) as u64)
    } else {
        None
    }
}

fn left_until(deadline: u64, now: u64) -> (r: Option<u64>)
    ensures
        r == time_left(deadline, now),
{
    if now < deadline {
        Some(deadline - now)
    } else {
        None
    }
}

/// The reading of the calibration table. After the request, the VTX sends the entries
/// one by one, with other frames between them.
pub struct TableReading {
    pub entries: Vec<PaCalibration>,
    pub deadline: u64,
}

#[verifier::ext_equal]
pub struct TableReadingView {
    pub entries: Seq<PaCalibrationView>,
    pub deadline: u64,
}

impl View for TableReading {
    type V = TableReadingView;

    open spec fn view(&self) -> TableReadingView {
        TableReadingView { entries: entry_views(self.entries@), deadline: self.deadline }
    }
}

impl TableReadingView {
    /// The reading after a frame at `now`; none where the frame is an entry that cannot
    /// be read.
    pub open spec fn after(self, f: MspFrameView, now: u64) -> Option<TableReadingView> {
        if f.function != function::SET_PACALTABLE {
            Some(self)
        } else if f.payload.len() < 31 {
            None
        } else {
            Some(
                TableReadingView {
                    entries: self.entries.push(pa_calibration_of(f.payload)),
                    deadline: after(now, QUIET_PERIOD),
                },
            )
        }
    }
}

impl TableReading {
    /// What asks the VTX for the table.
    pub fn request() -> (r: Outgoing)
        ensures
            r@ == v2(function::PACALTABLE, seq![]),
    {
        let payload: Vec<u8> = Vec::new();
        assert(payload@ =~= seq![]);
        Outgoing { is_v2: true, function: function::PACALTABLE, payload }
    }

    /// The request was sent at `now`.
    pub fn begin(now: u64) -> (r: Self)
        ensures
            r@ == (TableReadingView { entries: seq![], deadline: after(now, QUIET_PERIOD) }),
    {
        let r = TableReading { entries: Vec::new(), deadline: moment_after(now, QUIET_PERIOD) };
        assert(r@.entries =~= seq![]);
        r
    }

    /// For how long another frame is waited for; `None` where the table is complete.
    pub fn remaining(&self, now: u64) -> (r: Option<u64>)
        ensures
            r == time_left(self@.deadline, now),
    {
        left_until(self.deadline, now)
    }

    /// A frame came in at `now`. Where it is an entry that cannot be read, the reading
    /// has failed.
    pub fn frame_received(&mut self, frame: &MspFrame, now: u64) -> (r: Result<
        (),
        PayloadTooShort,
    >)
        ensures
            match old(self)@.after(frame@, now) {
                Some(v) => r is Ok && final(self)@ == v,
                None => {
                    &&& r matches Err(e) && e.kind is PaCalibration && e.len
                        == frame@.payload.len()
                    &&& final(self)@ == old(self)@
                },
            },
    {
        if frame.function != function::SET_PACALTABLE {
            return Ok(());
        }
        match decode_pa_calibration(frame.payload.as_slice()) {
            Ok(e) => {
                let ghost before = self.entries@;
                self.entries.push(e);
                self.deadline = moment_after(now, QUIET_PERIOD);
                assert(entry_views(self.entries@) =~= entry_views(before).push(e@));
                Ok(())
            },
            Err(e) => Err(e),
        }
    }
}

/// The entries among frames that can all be read, in order.
pub open spec fn entries_among(frames: Seq<MspFrameView>) -> Seq<PaCalibrationView>
    decreases frames.len(),
{
    if frames.len() == 0 {
        seq![]
    } else if frames.last().function == function::SET_PACALTABLE {
        entries_among(frames.drop_last()).push(pa_calibration_of(frames.last().payload))
    } else {
        entries_among(frames.drop_last())
    }
}

/// The reading after frames that came at these times.
pub open spec fn read_through(
    start: TableReadingView,
    frames: Seq<MspFrameView>,
    times: Seq<u64>,
) -> Option<TableReadingView>
    decreases frames.len(),
{
    if frames.len() == 0 {
        Some(start)
    } else {
        match read_through(start, frames.drop_last(), times.drop_last()) {
            Some(r) => r.after(frames.last(), times.last()),
            None => None,
        }
    }
}

/// A table that was read holds all entries that came, in the order in which they came,
/// whatever came between them.
pub proof fn law_a_table_holds_all_entries_that_came(
    start: TableReadingView,
    frames: Seq<MspFrameView>,
    times: Seq<u64>,
)
    requires
        times.len() == frames.len(),
        start.entries.len() == 0,
        read_through(start, frames, times) is Some,
    ensures
        read_through(start, frames, times)->0.entries == entries_among(frames),
    decreases frames.len(),
{
    if frames.len() == 0 {
        assert(start.entries =~= entries_among(frames));
    } else {
        law_a_table_holds_all_entries_that_came(start, frames.drop_last(), times.drop_last());
    }
}

/// The reading of what the VTX uses.
pub struct ConfigReading {
    pub deadline: u64,
}

impl ConfigReading {
    /// What asks the VTX for what it uses.
    pub fn request() -> (r: Outgoing)
        ensures
            r@ == v1(function::VTX_CONFIG, seq![]),
    {
        let payload: Vec<u8> = Vec::new();
        assert(payload@ =~= seq![]);
        Outgoing { is_v2: false, function: function::VTX_CONFIG, payload }
    }

    /// The request was sent at `now`.
    pub fn begin(now: u64) -> (r: Self)
        ensures
            r.deadline == after(now, QUIET_PERIOD),
    {
        ConfigReading { deadline: moment_after(now, QUIET_PERIOD) }
    }

    /// For how long an answer is waited for; `None` where it does not come any more.
    pub fn remaining(&self, now: u64) -> (r: Option<u64>)
        ensures
            r == time_left(self.deadline, now),
    {
        left_until(self.deadline, now)
    }
}

/// The error where no answer came.
pub fn no_config_text() -> (r: &'static str)
    ensures
        r@ == "no VTX_CONFIG response within timeout"@,
{
    "no VTX_CONFIG response within timeout"
}

/// What a frame says of what the VTX uses, while that is waited for.
pub fn config_frame(frame: &MspFrame) -> (r: Option<Result<VtxConfig, PayloadTooShort>>)
    ensures
        match r {
            None => frame@.function != function::VTX_CONFIG || frame@.payload.len() == 0,
            Some(Ok(c)) => frame@.function == function::VTX_CONFIG && frame@.payload.len() >= 15
                && c == vtx_config_of(frame@.payload),
            Some(Err(e)) => frame@.function == function::VTX_CONFIG && 0 < frame@.payload.len()
                < 15 && e.kind is VtxConfig && e.len == frame@.payload.len(),
        },
{
    if frame.function != function::VTX_CONFIG || frame.payload.len() == 0 {
        return None;
    }
    Some(decode_vtx_config(frame.payload.as_slice()))
}

/// A device is ready just as long as it was heard of within the window; a port that is
/// open and silent counts as lost, and as ready again with the next sign of life.
pub proof fn law_silence_and_signs_of_life(state: PortState, seen: u64, now: u64)
    requires
        seen <= now,
        state is Ready || state is LostCommunication,
    ensures
        now - seen < READY_WINDOW ==> port_state_after(state, heard_lately(Some(seen), now))
            is Ready,
        now - seen >= READY_WINDOW ==> port_state_after(state, heard_lately(Some(seen), now))
            is LostCommunication,
{
}

/// Whenever the port of the VTX is opened, the first thing that it is told is to go
/// into pit mode.
pub proof fn law_opening_begins_with_pit_mode(
    overlay: bool,
    selection: VtxSelectionState,
    table: VtxTableView,
)
    ensures
        ({
            let first = connect_commands(overlay, selection, table)[0];
            &&& first.function == function::VTX_CONFIG
            &&& vtx_config_of(first.payload).pitmode
        }),
{
}

/// The answer to the VTX, where there is one, says what is selected; once the VTX says
/// the same back, the selection stays as it is, unless its frequency follows from its
/// band and channel.
pub proof fn law_an_echoed_answer_keeps_the_selection(
    selection: VtxSelectionState,
    table: VtxTableView,
)
    ensures
        ({
            let answer = config_answer(true, selection, table);
            let f = MspFrameView {
                is_v2: false,
                msp_type: 62,
                function: function::VTX_CONFIG,
                payload: answer->0,
            };
            answer is Some ==> selection_after(selection, f) == (VtxSelectionState {
                selected_freq_mhz: selection.spec_frequency_mhz(table),
                ..selection
            })
        }),
{
    law_vtx_config_reads_back(selection, table);
}

} // verus!

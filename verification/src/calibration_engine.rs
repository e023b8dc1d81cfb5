//! The calibration sweep: for each power level at each frequency it looks for the
//! bias voltage that gives the target power, and for what the detector reads there.
//!
//! [`SweepEngine`] is driven from outside. Each poll hands in the time and what the
//! VTX and the power meter have said, and gets back what is to be sent.

use std::collections::{HashMap, VecDeque};
use vstd::prelude::*;
#[allow(unused_imports)]
use vstd::string::*;

use crate::calibration_engine::cells::{CellStatus, CellTable};
use crate::calibration_engine::model::{
    cell_of,
    clamped,
    detector_phase_text,
    in_range,
    outcome_ok,
    pa_phase_text,
    progress_text,
    ramp_start,
    resumed,
    step_ok,
    step_with_reading,
    scan_detector_ok,
    scan_pa_ok,
    up,
    watch_peak,
    with_cell,
    EngineView,
};
use crate::calibration_engine::types::{
    AfterSend,
    AutomaticStep,
    BoostMode,
    ConnectionLossReason,
    CurrentStep,
    DetectorDebugInfo,
    DetectorPoint,
    EngineState,
    LevelStatus,
    LevelStatusView,
    Message,
    PendingSend,
    PollInput,
    PollOutcome,
    ResumeMode,
    SampleRequest,
    SampleWait,
    ScanDetectorPhase,
    ScanDetectorState,
    ScanPaOutcome,
    ScanPaPhase,
    ScanPaState,
    StepDebugInfo,
    SweepOp,
    SweepResult,
};
use crate::calibration_engine::types::{
    BOOST_ENABLE_SETTLE_DELAY,
    COARSE_RAMP_START_MARGIN_MV,
    COARSE_RAMP_STEP_MV,
    FINE_SETTLE_DELAY,
    HEARTBEAT_BACKOFF_MV,
    HEARTBEAT_TIMEOUT,
    PA_FAILURE_GRACE_DURATION,
    PINNED_LIMIT,
    SEND_INTERVAL,
    SETTLE_BELOW_TARGET_TIMEOUT,
    VBIAS_MAX_MV,
};
use crate::clock::{elapsed, moment_after, time_since};
use crate::msp::frame::{build_command_v1, build_command_v2, command_v1, command_v2};
use crate::msp::function;
use crate::msp::link::{MspCommandKind, MspLink};
use crate::msp::{
    encode_pa_calibration_request,
    flag,
    flag_byte,
    high,
    high_byte,
    low,
    low_byte,
    pa_calibration_request,
    PaCalibrationReading,
};
use crate::power::Power;
use crate::power_meter::{nearest_band, FrequencyCapability};
use crate::text::{push_decimal, push_signed};
use crate::vtxtable::{VtxSelectionState, VtxTableConfig};

pub mod cells;
pub mod flow_laws;
pub mod laws;
pub mod model;
pub mod scan_laws;
pub mod types;

verus! {

broadcast use vstd::std_specs::hash::group_hash_axioms;

pub fn power_up_step(sign_inverted: bool) -> (r: i32)
    ensures
        r == up(sign_inverted),
{
    if sign_inverted {
        -1
    } else {
        1
    }
}

fn clamp(v: i32, lo: i32, hi: i32) -> (r: i32)
    ensures
        r == clamped(v as int, lo as int, hi as int),
{
    if v < lo {
        lo
    } else if v > hi {
        hi
    } else {
        v
    }
}

pub fn coarse_ramp_start_vbias_mv(sign_inverted: bool, bound_lo: i32, bound_hi: i32) -> (r: i32)
    ensures
        r == ramp_start(sign_inverted, bound_lo as int, bound_hi as int),
{
    if sign_inverted {
        let start: i32 = bound_hi - COARSE_RAMP_START_MARGIN_MV;
        if start > bound_lo {
            start
        } else {
            bound_lo
        }
    } else {
        let start: i32 = bound_lo + COARSE_RAMP_START_MARGIN_MV;
        if start < bound_hi {
            start
        } else {
            bound_hi
        }
    }
}

/// An MSP_VTX_CONFIG payload that sets the frequency and the power by themselves.
pub open spec fn vtx_config_frequency_payload(freq_mhz: u16, power: u8, pitmode: bool) -> Seq<u8> {
    seq![
        5u8,
        0u8,
        0u8,
        power,
        flag_byte(pitmode),
        low_byte(freq_mhz),
        high_byte(freq_mhz),
        1u8,
        0u8,
        0u8,
        0u8,
        1u8,
        0u8,
        0u8,
        0u8,
    ]
}

pub fn build_vtx_config_frequency_payload(freq_mhz: u16, power: u8, pitmode: bool) -> (r: Vec<u8>)
    ensures
        r@ == vtx_config_frequency_payload(freq_mhz, power, pitmode),
{
    let r: Vec<u8> = vec![
        5,
        0,
        0,
        power,
        flag(pitmode),
        low(freq_mhz),
        high(freq_mhz),
        1,
        0,
        0,
        0,
        1,
        0,
        0,
        0,
    ];
    assert(r@ =~= vtx_config_frequency_payload(freq_mhz, power, pitmode));
    r
}

/// The selection with pit mode on, as an MSP_VTX_CONFIG payload.
pub fn safe_state_payload(table: &VtxTableConfig, selection: &VtxSelectionState) -> (r: Vec<u8>)
    ensures
        r@ == (VtxSelectionState { pitmode: true, ..*selection }).config_bytes(table@),
{
    let sel = VtxSelectionState {
        selected_band: selection.selected_band,
        selected_channel: selection.selected_channel,
        selected_power: selection.selected_power,
        selected_freq_mhz: selection.selected_freq_mhz,
        pitmode: true,
    };
    sel.encode_vtx_config_response(table)
}

impl Message {
    /// The message on the wire.
    pub open spec fn bytes(self) -> Seq<u8> {
        match self {
            Message::VtxConfig { freq_mhz, power, pitmode } => command_v1(
                function::VTX_CONFIG as u8,
                vtx_config_frequency_payload(freq_mhz, power, pitmode),
            ),
            Message::RequestVtxConfig => command_v1(function::VTX_CONFIG as u8, seq![]),
            Message::CalibrationState { session_active, boost_mode } => command_v2(
                function::SET_PACALIBRATION,
                pa_calibration_request(0, None, session_active, boost_mode.byte()),
            ),
            Message::Calibration { level, mv, session_active, boost_mode } => command_v2(
                function::SET_PACALIBRATION,
                pa_calibration_request(level, mv, session_active, boost_mode.byte()),
            ),
        }
    }

    pub fn frame(&self) -> (r: Vec<u8>)
        ensures
            r@ == self.bytes(),
    {
        match *self {
            Message::VtxConfig { freq_mhz, power, pitmode } => {
                let payload = build_vtx_config_frequency_payload(freq_mhz, power, pitmode);
                build_command_v1(function::VTX_CONFIG as u8, payload.as_slice())
            },
            Message::RequestVtxConfig => {
                let payload: Vec<u8> = Vec::new();
                build_command_v1(function::VTX_CONFIG as u8, payload.as_slice())
            },
            Message::CalibrationState { session_active, boost_mode } => {
                let payload = encode_pa_calibration_request(
                    0,
                    None,
                    session_active,
                    boost_mode.wire_byte(),
                );
                build_command_v2(function::SET_PACALIBRATION, Some(payload.as_slice()))
            },
            Message::Calibration { level, mv, session_active, boost_mode } => {
                let payload = encode_pa_calibration_request(
                    level,
                    mv,
                    session_active,
                    boost_mode.wire_byte(),
                );
                build_command_v2(function::SET_PACALIBRATION, Some(payload.as_slice()))
            },
        }
    }

    pub open spec fn spec_kind(self) -> MspCommandKind {
        match self {
            Message::VtxConfig { .. } => MspCommandKind::Retune,
            Message::RequestVtxConfig => MspCommandKind::Other,
            Message::CalibrationState { .. } => MspCommandKind::Other,
            Message::Calibration { .. } => MspCommandKind::Calibration,
        }
    }

    pub fn kind(&self) -> (r: MspCommandKind)
        ensures
            r == self.spec_kind(),
    {
        match *self {
            Message::VtxConfig { .. } => MspCommandKind::Retune,
            Message::RequestVtxConfig => MspCommandKind::Other,
            Message::CalibrationState { .. } => MspCommandKind::Other,
            Message::Calibration { .. } => MspCommandKind::Calibration,
        }
    }
}

fn progress_string(op: SweepOp, phase: &str, freq_mhz: u16, vbias_mv: Option<i32>) -> (r: String)
    ensures
        r@ == progress_text(op, phase@, freq_mhz, vbias_mv),
{
    let mut s = String::new();
    s.append(op.label());
    s.append(" / ");
    s.append(phase);
    s.append(" @ ");
    push_decimal(&mut s, freq_mhz as u64);
    s.append("MHz");
    match vbias_mv {
        Some(mv) => {
            s.append(" vbias_mv=");
            push_signed(&mut s, mv);
        },
        None => {},
    }
    assert(s@ =~= progress_text(op, phase@, freq_mhz, vbias_mv));
    s
}

fn resumed_state(resume: ResumeMode) -> (r: EngineState)
    ensures
        r == resumed(resume),
{
    match resume {
        ResumeMode::Automatic => EngineState::Automatic(AutomaticStep::EnteringPoint),
        ResumeMode::Manual => EngineState::Manual,
    }
}

/// Sets the status of a cell, unless the cell hit a limit before.
pub fn set_cell_status(cells: &mut CellTable, level: u8, freq_idx: usize, status: CellStatus)
    ensures
        final(cells)@ == with_cell(old(cells)@, (level, freq_idx), status),
{
    if let Some(CellStatus::LimitHit) = cells.get(level, freq_idx) {
        if status != CellStatus::LimitHit {
            return;
        }
    }
    cells.insert(level, freq_idx, status);
}

fn cell_status_of(outcome: ScanPaOutcome) -> (r: CellStatus)
    ensures
        r == cell_of(outcome),
{
    match outcome {
        ScanPaOutcome::Success => CellStatus::Calibrated,
        ScanPaOutcome::Uncalibrated => CellStatus::Uncalibrated,
        ScanPaOutcome::PaFailure => CellStatus::PaFailure,
        ScanPaOutcome::NotSettled => CellStatus::NotSettled,
    }
}

fn pa_phase_label(phase: ScanPaPhase) -> (r: &'static str)
    ensures
        r@ == pa_phase_text(phase),
{
    match phase {
        ScanPaPhase::Settle => "settling",
        ScanPaPhase::CoarseRamp => "coarse ramp",
        ScanPaPhase::Fine => "fine",
    }
}

fn detector_phase_label(phase: ScanDetectorPhase) -> (r: &'static str)
    ensures
        r@ == detector_phase_text(phase),
{
    match phase {
        ScanDetectorPhase::Backoff => "backoff",
        ScanDetectorPhase::Bracket => "bracket",
    }
}

fn still_before(until: Option<u64>, now: u64) -> (r: bool)
    ensures
        r == (until matches Some(t) && now < t),
{
    match until {
        Some(t) => now < t,
        None => false,
    }
}

fn peak_watched(st: ScanPaState, inp: &PollInput) -> (r: Option<ScanPaState>)
    ensures
        r == watch_peak(st, *inp),
{
    let rolling = match inp.samples.rolling {
        Some(rolling) => rolling,
        None => {
            return Some(st);
        },
    };
    if st.fine_started_at.is_none() {
        return Some(st);
    }
    let in_grace = match st.fine_started_instant {
        Some(t) => time_since(t, inp.now) < PA_FAILURE_GRACE_DURATION,
        None => false,
    };
    let highest = match st.fine_highest_avg_mw {
        Some(peak) => {
            if !in_grace && rolling.average.lt(peak.floor) {
                return None;
            }
            if peak.average.nan() || peak.average.lt(rolling.average) {
                rolling
            } else {
                peak
            }
        },
        None => rolling,
    };
    Some(ScanPaState { fine_highest_avg_mw: Some(highest), ..st })
}

pub struct SweepEngine {
    pub levels: Vec<u8>,
    pub frequencies: Vec<u16>,
    pub sign_inverted: bool,
    pub target_mw_by_level: HashMap<u8, u16>,
    /// How often in a second the meter is read during the sweep.
    pub sweep_hz: u32,
    pub state: EngineState,
    pub freq_idx: usize,
    pub level_idx: usize,
    pub last_send: Option<u64>,
    pub per_level_status: HashMap<u8, LevelStatus>,
    pub cal_cell_status: CellTable,
    pub det_cell_status: CellTable,
    pub total_steps: usize,
    pub completed_steps: usize,
    pub pending_result: Option<SweepResult>,
    pub meter_capability: FrequencyCapability,
    pub last_prompted_band: Option<u32>,
    pub pending_frequency_push: Option<u16>,
    pub pending_meter_frequency: Option<u32>,
    pub hard_limits: HashMap<u8, i32>,
    pub pending_sends: VecDeque<PendingSend>,
    pub unresponsive_since: Option<u64>,
    pub manual_dac_mv: i32,
    pub manual_send_pending: bool,
    pub session_active: bool,
    pub boost_mode: BoostMode,
    pub last_boost_on: Option<bool>,
    pub boost_settle_until: Option<u64>,
    pub pa_enable_settle_pending: bool,
}

pub open spec fn status_views(m: Map<u8, LevelStatus>) -> Map<u8, LevelStatusView> {
    m.map_values(|s: LevelStatus| s@)
}

/// The status of each level before a sweep.
pub fn all_pending(levels: &Vec<u8>) -> (r: HashMap<u8, LevelStatus>)
    ensures
        status_views(r@) == Map::new(
            |l: u8| levels@.contains(l),
            |l: u8| LevelStatusView::Pending,
        ),
{
    let mut r: HashMap<u8, LevelStatus> = HashMap::new();
    let mut i: usize = 0;
    while i < levels.len()
        invariant
            i <= levels@.len(),
            forall|l: u8| #[trigger]
                r@.contains_key(l) <==> levels@.take(i as int).contains(l),
            forall|l: u8| #[trigger] r@.contains_key(l) ==> r@[l]@ == LevelStatusView::Pending,
        decreases levels@.len() - i,
    {
        r.insert(levels[i], LevelStatus::Pending);
        proof {
            lemma_one_more(levels@, i as int);
        }
        i = i + 1;
    }
    assert(levels@.take(i as int) =~= levels@);
    assert(status_views(r@) =~= Map::new(
        |l: u8| levels@.contains(l),
        |l: u8| LevelStatusView::Pending,
    ));
    r
}

proof fn lemma_one_more(s: Seq<u8>, i: int)
    requires
        0 <= i < s.len(),
    ensures
        forall|l: u8| #[trigger]
            s.take(i + 1).contains(l) <==> (s.take(i).contains(l) || l == s[i]),
{
    let (seen, more) = (s.take(i), s.take(i + 1));
    assert(more =~= seen.push(s[i]));
    assert forall|l: u8| #[trigger] more.contains(l) <==> (seen.contains(l) || l == s[i]) by {
        if seen.contains(l) {
            let k = choose|k: int| 0 <= k < seen.len() && seen[k] == l;
            assert(more[k] == l);
        }
        if l == s[i] {
            assert(more[i] == l);
        }
    }
}

/// What an abort makes of a status.
pub open spec fn aborted(status: LevelStatusView) -> LevelStatusView {
    if status is Done {
        LevelStatusView::Done
    } else {
        LevelStatusView::Aborted
    }
}

/// Aborts all levels that are not done.
pub fn abort_all(statuses: &mut HashMap<u8, LevelStatus>, levels: &Vec<u8>)
    requires
        forall|l: u8| #[trigger]
            status_views(old(statuses)@).contains_key(l) <==> levels@.contains(l),
    ensures
        status_views(final(statuses)@) == Map::new(
            |l: u8| status_views(old(statuses)@).contains_key(l),
            |l: u8| aborted(status_views(old(statuses)@)[l]),
        ),
{
    let ghost before = statuses@;
    assert forall|l: u8| #[trigger] before.contains_key(l) <==> levels@.contains(l) by {
        assert(status_views(before).contains_key(l) <==> before.contains_key(l));
    }
    let mut i: usize = 0;
    while i < levels.len()
        invariant
            i <= levels@.len(),
            before == old(statuses)@,
            forall|l: u8| #[trigger] before.contains_key(l) <==> levels@.contains(l),
            forall|l: u8| #[trigger] statuses@.contains_key(l) <==> before.contains_key(l),
            forall|l: u8| #[trigger]
                before.contains_key(l) ==> statuses@[l]@ == (if levels@.take(i as int).contains(l) {
                    aborted(before[l]@)
                } else {
                    before[l]@
                }),
        decreases levels@.len() - i,
    {
        let level = levels[i];
        let ghost was = statuses@;
        assert(levels@.contains(level));
        assert(before.contains_key(level));
        assert(was.contains_key(level));
        let done = match statuses.get(&level) {
            Some(LevelStatus::Done) => true,
            _ => false,
        };
        assert(done == (was[level]@ is Done));
        if !done {
            statuses.insert(level, LevelStatus::Aborted);
        }
        proof {
            lemma_one_more(levels@, i as int);
            assert(statuses@[level]@ == aborted(before[level]@));
        }
        i = i + 1;
    }
    assert(levels@.take(i as int) =~= levels@);
    assert(status_views(statuses@) =~= Map::new(
        |l: u8| status_views(before).contains_key(l),
        |l: u8| aborted(status_views(before)[l]),
    ));
}

impl View for SweepEngine {
    type V = EngineView;

    open spec fn view(&self) -> EngineView {
        EngineView {
            levels: self.levels@,
            frequencies: self.frequencies@,
            sign_inverted: self.sign_inverted,
            targets: self.target_mw_by_level@,
            sweep_hz: self.sweep_hz,
            state: self.state,
            freq_idx: self.freq_idx,
            level_idx: self.level_idx,
            last_send: self.last_send,
            level_status: status_views(self.per_level_status@),
            cal_cells: self.cal_cell_status@,
            det_cells: self.det_cell_status@,
            total_steps: self.total_steps,
            completed_steps: self.completed_steps,
            pending_result: self.pending_result,
            capability: self.meter_capability@,
            last_prompted_band: self.last_prompted_band,
            pending_frequency_push: self.pending_frequency_push,
            pending_meter_frequency: self.pending_meter_frequency,
            hard_limits: self.hard_limits@,
            pending_sends: self.pending_sends@,
            unresponsive_since: self.unresponsive_since,
            manual_dac_mv: self.manual_dac_mv,
            manual_send_pending: self.manual_send_pending,
            session_active: self.session_active,
            boost_mode: self.boost_mode,
            last_boost_on: self.last_boost_on,
            boost_settle_until: self.boost_settle_until,
            pa_enable_settle_pending: self.pa_enable_settle_pending,
        }
    }
}

impl SweepEngine {
    pub open spec fn wf(&self) -> bool {
        self@.wf()
    }

    pub fn new(
        levels: Vec<u8>,
        frequencies: Vec<u16>,
        sign_inverted: bool,
        target_mw_by_level: HashMap<u8, u16>,
        meter_max_hz: u32,
    ) -> (r: Self)
        requires
            levels@.len() * frequencies@.len() * 2 <= usize::MAX,
        ensures
            r.wf(),
            r@ == EngineView::fresh(
                levels@,
                frequencies@,
                sign_inverted,
                target_mw_by_level@,
                meter_max_hz,
            ),
    {
        let per_level_status = all_pending(&levels);
        proof {
            assert(levels@.len() * frequencies@.len() <= usize::MAX) by (nonlinear_arith)
                requires
                    levels@.len() * frequencies@.len() * 2 <= usize::MAX,
            ;
        }
        let total_steps: usize = levels.len() * frequencies.len() * 2;
        let ghost fresh = EngineView::fresh(
            levels@,
            frequencies@,
            sign_inverted,
            target_mw_by_level@,
            meter_max_hz,
        );
        let r = SweepEngine {
            levels,
            frequencies,
            sign_inverted,
            target_mw_by_level,
            sweep_hz: if meter_max_hz < 10 { meter_max_hz } else { 10 },
            state: EngineState::Idle,
            freq_idx: 0,
            level_idx: 0,
            last_send: None,
            per_level_status,
            cal_cell_status: CellTable::new(),
            det_cell_status: CellTable::new(),
            total_steps,
            completed_steps: 0,
            pending_result: None,
            meter_capability: FrequencyCapability::Manual { min_mhz: 0, max_mhz: 0 },
            last_prompted_band: None,
            pending_frequency_push: None,
            pending_meter_frequency: None,
            hard_limits: HashMap::new(),
            pending_sends: VecDeque::new(),
            unresponsive_since: None,
            manual_dac_mv: 0,
            manual_send_pending: false,
            session_active: false,
            boost_mode: BoostMode::Auto,
            last_boost_on: None,
            boost_settle_until: None,
            pa_enable_settle_pending: false,
        };
        assert(r@.level_status =~= fresh.level_status);
        assert(r@ =~= fresh);
        r
    }

    /// How many of how many steps are done; one of one where there are none.
    pub fn progress(&self) -> (r: (usize, usize))
        ensures
            r == (if self.total_steps == 0 {
                (1usize, 1usize)
            } else {
                (self.completed_steps, self.total_steps)
            }),
    {
        if self.total_steps == 0 {
            return (1, 1);
        }
        (self.completed_steps, self.total_steps)
    }

    fn set_level_status(&mut self, level: u8, status: LevelStatus)
        ensures
            final(self)@ == old(self)@.with_level_status(level, status@),
    {
        let ghost before = self.per_level_status@;
        self.per_level_status.insert(level, status);
        assert(status_views(self.per_level_status@) =~= status_views(before).insert(level, status@));
    }

    fn set_cal_cell(&mut self, level: u8, status: CellStatus)
        ensures
            final(self)@ == old(self)@.with_cal_cell(level, status),
    {
        set_cell_status(&mut self.cal_cell_status, level, self.freq_idx, status);
    }

    fn set_det_cell(&mut self, level: u8, status: CellStatus)
        ensures
            final(self)@ == old(self)@.with_det_cell(level, status),
    {
        set_cell_status(&mut self.det_cell_status, level, self.freq_idx, status);
    }

    fn add_steps(&mut self, n: usize)
        ensures
            final(self)@ == old(self)@.with_steps_done(n),
    {
        self.completed_steps = self.completed_steps.wrapping_add(n);
    }

    fn queue(&mut self, send: PendingSend)
        ensures
            final(self)@ == old(self)@.queue(send),
    {
        self.pending_sends.push_back(send);
    }

    fn safe_state_at_current_point(&self) -> (r: PendingSend)
        requires
            self.wf(),
        ensures
            r == self@.safe_state(),
    {
        PendingSend::SafeState {
            freq_mhz: if self.frequencies.len() > 0 { self.frequencies[self.freq_idx] } else { 5800 },
            power: if self.levels.len() > 0 { self.levels[self.level_idx] } else { 1 },
        }
    }

    pub fn start(&mut self, capability: FrequencyCapability)
        requires
            old(self).wf(),
        ensures
            final(self).wf(),
            final(self)@ == old(self)@.start(capability@),
    {
        if self.levels.len() == 0 || self.frequencies.len() == 0 {
            self.state = EngineState::Idle;
            return;
        }
        self.freq_idx = 0;
        self.level_idx = 0;
        self.last_prompted_band = None;
        self.meter_capability = capability;
        self.session_active = true;
        self.boost_mode = BoostMode::Auto;
        self.queue(PendingSend::CalibrationState);
        let first_freq = self.frequencies[0];
        self.begin_frequency(first_freq, ResumeMode::Automatic);
    }

    pub fn start_manual(&mut self, capability: FrequencyCapability)
        requires
            old(self).wf(),
        ensures
            final(self).wf(),
            final(self)@ == old(self)@.start_manual(capability@),
    {
        if self.levels.len() == 0 || self.frequencies.len() == 0 {
            self.state = EngineState::Idle;
            return;
        }
        self.freq_idx = 0;
        self.level_idx = 0;
        self.last_prompted_band = None;
        self.meter_capability = capability;
        self.manual_send_pending = false;
        self.session_active = true;
        self.boost_mode = BoostMode::Off;
        self.queue(PendingSend::CalibrationState);
        let first_freq = self.frequencies[0];
        self.begin_frequency(first_freq, ResumeMode::Manual);
    }

    pub fn set_pa_boost(&mut self, on: bool)
        requires
            old(self).wf(),
        ensures
            final(self).wf(),
            final(self)@ == old(self)@.set_pa_boost(on),
    {
        self.boost_mode = if on {
            BoostMode::On
        } else {
            BoostMode::Off
        };
        self.manual_send_pending = true;
    }

    pub fn set_manual_dac(&mut self, mv: i32)
        requires
            old(self).wf(),
        ensures
            final(self).wf(),
            final(self)@ == old(self)@.set_manual_dac(mv),
    {
        self.manual_dac_mv = clamp(mv, 0, VBIAS_MAX_MV);
        self.manual_send_pending = true;
    }

    /// Accepts the current point as it is, and returns the next one.
    pub fn manual_next(&mut self, detector_mv: u16) -> (r: Option<(u8, usize)>)
        requires
            old(self).wf(),
        ensures
            final(self).wf(),
            final(self)@ == old(self)@.manual_next(detector_mv),
            r == (if old(self)@.state is Manual { old(self)@.next_point() } else { None }),
    {
        if let EngineState::Manual = self.state {
            let level = self.levels[self.level_idx];
            self.pending_result = Some(
                SweepResult {
                    level,
                    freq_idx: self.freq_idx,
                    vbias_mv: Some(self.manual_dac_mv as u16),
                    detector_mv: Some(detector_mv),
                    success: true,
                    pa_failure: false,
                    not_settled: false,
                },
            );
            self.add_steps(2);
            self.set_cal_cell(level, CellStatus::Manual);
            self.set_det_cell(level, CellStatus::Manual);
            self.set_level_status(level, LevelStatus::Done);
            self.advance_position()
        } else {
            None
        }
    }

    /// Moves to the next point, and says whether its frequency is another.
    /// Goes on to the next point, where there is one, and says whether that is at another
    /// frequency.
    pub fn advance_indices(&mut self) -> (r: Option<bool>)
        requires
            old(self).wf(),
        ensures
            final(self).wf(),
            r == (if old(self)@.has_next() {
                Some(old(self)@.next_is_new_frequency())
            } else {
                None
            }),
            final(self)@ == (if old(self)@.has_next() {
                old(self)@.at_next()
            } else {
                old(self)@
            }),
    {
        if self.level_idx < self.levels.len() && self.levels.len() - self.level_idx > 1 {
            self.level_idx = self.level_idx + 1;
            return Some(false);
        }
        if self.freq_idx >= self.frequencies.len() || self.frequencies.len() - self.freq_idx <= 1 {
            return None;
        }
        self.level_idx = 0;
        self.freq_idx = self.freq_idx + 1;
        Some(true)
    }

    fn finish(&mut self)
        requires
            old(self).wf(),
        ensures
            final(self).wf(),
            final(self)@ == old(self)@.finished(),
    {
        let safe_state = self.safe_state_at_current_point();
        self.state = EngineState::Idle;
        self.session_active = false;
        self.boost_mode = BoostMode::Auto;
        self.queue(safe_state);
        self.queue(PendingSend::CalibrationState);
    }

    fn advance_position(&mut self) -> (r: Option<(u8, usize)>)
        requires
            old(self).wf(),
            old(self)@.levels.len() > 0,
            old(self)@.frequencies.len() > 0,
        ensures
            final(self).wf(),
            final(self)@ == old(self)@.advance_position(),
            r == old(self)@.next_point(),
    {
        let resume = match self.state {
            EngineState::Manual => ResumeMode::Manual,
            _ => ResumeMode::Automatic,
        };
        match self.advance_indices() {
            None => {
                self.finish();
                None
            },
            Some(true) => {
                let next_freq = self.frequencies[self.freq_idx];
                self.begin_frequency(next_freq, resume);
                Some((self.levels[self.level_idx], self.freq_idx))
            },
            Some(false) => {
                self.state = resumed_state(resume);
                Some((self.levels[self.level_idx], self.freq_idx))
            },
        }
    }

    pub fn exit_manual(&mut self)
        requires
            old(self).wf(),
        ensures
            final(self).wf(),
            final(self)@ == old(self)@.exit_manual(),
    {
        self.finish();
        self.pending_frequency_push = None;
        self.manual_send_pending = false;
    }

    pub fn resume_automatic_from_current(&mut self)
        requires
            old(self).wf(),
            old(self)@.levels.len() > 0,
            old(self)@.frequencies.len() > 0,
        ensures
            final(self).wf(),
            final(self)@ == old(self)@.resume_automatic_from_current(),
    {
        self.manual_send_pending = false;
        self.state = EngineState::Automatic(AutomaticStep::EnteringPoint);
        self.boost_mode = BoostMode::Auto;
        self.queue(PendingSend::CalibrationState);
        let resume_level = self.levels[self.level_idx];
        self.queue(PendingSend::RestoreBoost { level: resume_level });
    }

    fn begin_frequency(&mut self, freq_mhz: u16, resume: ResumeMode)
        requires
            old(self).wf(),
            old(self)@.levels.len() > 0,
            old(self)@.frequencies.len() > 0,
        ensures
            final(self).wf(),
            final(self)@ == old(self)@.begin_frequency(freq_mhz, resume),
    {
        let asking = EngineState::AwaitingFreqConfirm { freq_mhz, resume };
        let going_on = resumed_state(resume);
        match &self.meter_capability {
            FrequencyCapability::Manual { .. } => {
                self.state = asking;
            },
            FrequencyCapability::ManualBand { bands_mhz } => {
                let band = nearest_band(bands_mhz.as_slice(), freq_mhz as u32);
                if self.last_prompted_band == Some(band) {
                    self.state = going_on;
                    self.pending_frequency_push = Some(freq_mhz);
                } else {
                    self.last_prompted_band = Some(band);
                    self.state = asking;
                }
            },
            FrequencyCapability::ProgrammableBand { bands_mhz } => {
                let band = nearest_band(bands_mhz.as_slice(), freq_mhz as u32);
                self.pending_meter_frequency = Some(band);
                self.state = going_on;
                self.pending_frequency_push = Some(freq_mhz);
            },
            FrequencyCapability::FullyProgrammable { .. } => {
                self.pending_meter_frequency = Some(freq_mhz as u32);
                self.state = going_on;
                self.pending_frequency_push = Some(freq_mhz);
            },
        }
    }

    pub fn confirm_frequency(&mut self)
        requires
            old(self).wf(),
        ensures
            final(self).wf(),
            final(self)@ == old(self)@.confirm_frequency(),
    {
        if let EngineState::AwaitingFreqConfirm { freq_mhz, resume } = self.state {
            self.state = resumed_state(resume);
            self.pending_frequency_push = Some(freq_mhz);
        }
    }

    pub fn abort(&mut self)
        requires
            old(self).wf(),
        ensures
            final(self).wf(),
            final(self)@ == old(self)@.abort(),
    {
        let safe_state = self.safe_state_at_current_point();
        abort_all(&mut self.per_level_status, &self.levels);
        assert(self@.level_status =~= old(self)@.abort().level_status);
        self.state = EngineState::Idle;
        self.pending_frequency_push = None;
        self.manual_send_pending = false;
        self.session_active = false;
        self.boost_mode = BoostMode::Auto;
        self.pending_sends.clear();
        self.pending_sends.push_back(safe_state);
        self.pending_sends.push_back(PendingSend::CalibrationState);
        assert(self@.pending_sends =~= old(self)@.abort().pending_sends);
    }
}

impl SweepEngine {
    fn skip_mark(&mut self, first: bool)
        requires
            old(self).wf(),
            old(self)@.levels.len() > 0,
        ensures
            final(self).wf(),
            final(self)@ == old(self)@.skip_mark(first),
    {
        let level = self.levels[self.level_idx];
        let todo: usize = if first {
            match self.state {
                EngineState::Automatic(AutomaticStep::ScanDetector(_)) => 1,
                EngineState::Automatic(AutomaticStep::EnteringPoint) => 0,
                _ => 2,
            }
        } else {
            2
        };
        if todo == 2 {
            self.set_cal_cell(level, CellStatus::Skipped);
        }
        if todo > 0 {
            self.set_det_cell(level, CellStatus::Skipped);
            self.add_steps(todo);
        }
        self.set_level_status(level, LevelStatus::Skipped);
    }

    /// Skips up to `count` points. Says where manual mode goes on, unless the sweep
    /// is over.
    #[verifier::rlimit(60)]
    pub fn skip_multiple(&mut self, count: u32) -> (r: Option<(u8, usize)>)
        requires
            old(self).wf(),
        ensures
            final(self).wf(),
            final(self)@ == old(self)@.skip_multiple(count as nat),
            r == old(self)@.skip_multiple_result(count as nat),
    {
        if count == 0 {
            return None;
        }
        let resume = match self.state {
            EngineState::Manual => ResumeMode::Manual,
            EngineState::Automatic(_) => ResumeMode::Automatic,
            _ => {
                return None;
            },
        };
        let ghost start = self@;
        let starting_level = self.levels[self.level_idx];
        let mut crossed_frequency = false;
        let mut i: u32 = 0;
        while i < count
            invariant
                i <= count,
                self.wf(),
                self@.levels == start.levels,
                self@.frequencies == start.frequencies,
                start.levels.len() > 0,
                start.frequencies.len() > 0,
                start == old(self)@,
                start.can_skip(count as nat),
                ({
                    let (end, rest) = self@.skip_run(i as nat, count as nat);
                    start.skip_run(0, count as nat) == (
                        end,
                        match rest {
                            Some(c) => Some(c || crossed_frequency),
                            None => None,
                        },
                    )
                }),
            decreases count - i,
        {
            self.skip_mark(i == 0);
            match self.advance_indices() {
                None => {
                    self.finish();
                    return None;
                },
                Some(crossed) => {
                    crossed_frequency = crossed_frequency || crossed;
                },
            }
            i = i + 1;
        }
        let (bound_lo, bound_hi) = self.effective_bounds(starting_level);
        let low_mv = coarse_ramp_start_vbias_mv(self.sign_inverted, bound_lo, bound_hi);
        self.queue(PendingSend::DacLow { level: starting_level, vbias_mv: low_mv as u16 });
        let safe_state = self.safe_state_at_current_point();
        self.queue(safe_state);
        let resume_level = self.levels[self.level_idx];
        self.queue(PendingSend::RestoreBoost { level: resume_level });
        if crossed_frequency {
            let freq_mhz = self.frequencies[self.freq_idx];
            self.begin_frequency(freq_mhz, resume);
        } else {
            self.state = resumed_state(resume);
        }
        match resume {
            ResumeMode::Manual => Some((self.levels[self.level_idx], self.freq_idx)),
            ResumeMode::Automatic => None,
        }
    }

    pub fn is_active(&self) -> (r: bool)
        ensures
            r == self@.is_active(),
    {
        match self.state {
            EngineState::Idle => false,
            _ => true,
        }
    }

    pub fn is_manual_mode(&self) -> (r: bool)
        ensures
            r == self@.is_in_mode(ResumeMode::Manual),
    {
        match self.state {
            EngineState::Manual => true,
            EngineState::AwaitingFreqConfirm { resume, .. } => resume == ResumeMode::Manual,
            EngineState::ConnectionLost { resume, .. } => resume == ResumeMode::Manual,
            _ => false,
        }
    }

    pub fn is_automatic_mode(&self) -> (r: bool)
        ensures
            r == self@.is_in_mode(ResumeMode::Automatic),
    {
        match self.state {
            EngineState::Automatic(_) => true,
            EngineState::AwaitingFreqConfirm { resume, .. } => resume == ResumeMode::Automatic,
            EngineState::ConnectionLost { resume, .. } => resume == ResumeMode::Automatic,
            _ => false,
        }
    }

    fn effective_bounds(&self, level: u8) -> (r: (i32, i32))
        requires
            self.wf(),
        ensures
            r.0 == self@.bound_lo(level),
            r.1 == self@.bound_hi(level),
            0 <= r.0 <= r.1 <= VBIAS_MAX_MV,
    {
        let mut lo: i32 = 0;
        let mut hi: i32 = VBIAS_MAX_MV;
        if let Some(limit) = self.hard_limits.get(&level) {
            let limit: i32 = *limit;
            assert(in_range(self@.hard_limits[level]));
            if self.sign_inverted {
                if limit > lo {
                    lo = limit;
                }
            } else if limit < hi {
                hi = limit;
            }
        }
        (lo, hi)
    }

    fn within_bounds(&self, level: u8, mv: i32) -> (r: i32)
        requires
            self.wf(),
        ensures
            r == self@.in_bounds(level, mv as int),
            in_range(r),
    {
        let (lo, hi) = self.effective_bounds(level);
        clamp(mv, lo, hi)
    }

    fn scan_vbias_mv(&self) -> (r: i32)
        ensures
            r == self@.scan_vbias_mv(),
    {
        match self.state {
            EngineState::Automatic(AutomaticStep::ScanPa(st)) => st.vbias_mv,
            EngineState::Automatic(AutomaticStep::ScanDetector(st)) => st.vbias_mv,
            _ => 0,
        }
    }

    fn mark_limit_hit(&mut self)
        requires
            old(self).wf(),
            old(self)@.levels.len() > 0,
        ensures
            final(self).wf(),
            final(self)@ == old(self)@.with_limit_hit(),
    {
        let level = self.levels[self.level_idx];
        match self.state {
            EngineState::Manual => {
                self.set_cal_cell(level, CellStatus::LimitHit);
            },
            EngineState::Automatic(AutomaticStep::ScanPa(_)) => {
                self.set_cal_cell(level, CellStatus::LimitHit);
            },
            EngineState::Automatic(AutomaticStep::ScanDetector(_)) => {
                self.set_det_cell(level, CellStatus::LimitHit);
            },
            _ => {},
        }
    }

    fn lose_connection(&mut self, reason: ConnectionLossReason, vbias_mv_at_loss: i32)
        requires
            old(self).wf(),
            old(self)@.levels.len() > 0,
            old(self)@.frequencies.len() > 0,
            in_range(vbias_mv_at_loss),
        ensures
            final(self).wf(),
            final(self)@ == old(self)@.connection_lost(reason, vbias_mv_at_loss),
    {
        let resume = match self.state {
            EngineState::Manual => ResumeMode::Manual,
            _ => ResumeMode::Automatic,
        };
        if reason != ConnectionLossReason::Meter {
            self.mark_limit_hit();
        }
        self.state = EngineState::ConnectionLost {
            level: self.levels[self.level_idx],
            freq_mhz: self.frequencies[self.freq_idx],
            vbias_mv_at_loss,
            reason,
            resume,
        };
    }

    /// The port of the VTX or of the meter was lost.
    pub fn force_connection_lost(&mut self, reason: ConnectionLossReason)
        requires
            old(self).wf(),
        ensures
            final(self).wf(),
            final(self)@ == old(self)@.force_connection_lost(reason),
    {
        if let EngineState::Automatic(_) = self.state {
            let vbias_mv_at_loss = self.scan_vbias_mv();
            self.lose_connection(reason, vbias_mv_at_loss);
            self.unresponsive_since = None;
        }
    }

    pub fn clear_hard_limits(&mut self)
        requires
            old(self).wf(),
        ensures
            final(self).wf(),
            final(self)@ == (EngineView { hard_limits: Map::empty(), ..old(self)@ }),
    {
        self.hard_limits.clear();
    }

    pub fn clear_cell_status(&mut self)
        requires
            old(self).wf(),
        ensures
            final(self).wf(),
            final(self)@ == (EngineView {
                cal_cells: Map::empty(),
                det_cells: Map::empty(),
                ..old(self)@
            }),
    {
        self.cal_cell_status.clear();
        self.det_cell_status.clear();
    }

    fn auto_resume(
        &mut self,
        level: u8,
        freq_mhz: u16,
        vbias_mv_at_loss: i32,
        reason: ConnectionLossReason,
        resume: ResumeMode,
    )
        requires
            old(self).wf(),
            old(self)@.levels.len() > 0,
            old(self)@.frequencies.len() > 0,
            in_range(vbias_mv_at_loss),
        ensures
            final(self).wf(),
            final(self)@ == old(self)@.auto_resume(level, freq_mhz, vbias_mv_at_loss, reason, resume),
    {
        if reason != ConnectionLossReason::Meter {
            let safe_vbias_mv = clamp(
                vbias_mv_at_loss - power_up_step(self.sign_inverted) * HEARTBEAT_BACKOFF_MV,
                0,
                VBIAS_MAX_MV,
            );
            self.hard_limits.insert(level, safe_vbias_mv);
            if resume == ResumeMode::Manual {
                self.manual_dac_mv = safe_vbias_mv;
                self.manual_send_pending = true;
            }
        }
        self.unresponsive_since = None;
        self.state = resumed_state(resume);
        self.pending_frequency_push = Some(freq_mhz);
    }

    /// Whether the connection counts as lost with this poll.
    fn maybe_trip_connection_lost(&mut self, inp: &PollInput, vbias_mv_now: i32) -> (r: bool)
        requires
            old(self).wf(),
            old(self)@.levels.len() > 0,
            old(self)@.frequencies.len() > 0,
            in_range(vbias_mv_now),
        ensures
            final(self).wf(),
            final(self)@ == old(self)@.watch_connection(*inp, vbias_mv_now),
            r == old(self)@.trips(*inp),
    {
        if inp.vtx_ready && inp.meter_ready {
            self.unresponsive_since = None;
            return false;
        }
        match self.unresponsive_since {
            None => {
                self.unresponsive_since = Some(inp.now);
                false
            },
            Some(since) => {
                if time_since(since, inp.now) <= HEARTBEAT_TIMEOUT {
                    return false;
                }
                let reason = if !inp.vtx_ready && !inp.meter_ready {
                    ConnectionLossReason::Both
                } else if !inp.vtx_ready {
                    ConnectionLossReason::Vtx
                } else {
                    ConnectionLossReason::Meter
                };
                self.lose_connection(reason, vbias_mv_now);
                true
            },
        }
    }

    fn is_throttled(&self, now: u64) -> (r: bool)
        ensures
            r == self@.throttled(now),
    {
        match self.last_send {
            Some(t) => time_since(t, now) < SEND_INTERVAL,
            None => false,
        }
    }

    fn hold_or_send(
        &mut self,
        inp: &PollInput,
        vbias_mv: i32,
        held: AutomaticStep,
        sent: AutomaticStep,
    ) -> (r: PollOutcome)
        requires
            old(self).wf(),
            old(self)@.levels.len() > 0,
            old(self)@.frequencies.len() > 0,
            step_ok(held),
            step_ok(sent),
        ensures
            final(self).wf(),
            final(self)@ == old(self)@.hold_or_send(*inp, vbias_mv, held, sent).0,
            r == old(self)@.hold_or_send(*inp, vbias_mv, held, sent).1,
            outcome_ok(r, final(self)@),
    {
        if self.is_throttled(inp.now) {
            self.state = EngineState::Automatic(held);
            PollOutcome::Nothing
        } else {
            let level = self.levels[self.level_idx];
            let mv = self.within_bounds(level, vbias_mv);
            PollOutcome::Send {
                message: Message::Calibration {
                    level,
                    mv: Some(mv as u16),
                    session_active: self.session_active,
                    boost_mode: self.boost_mode,
                },
                after: AfterSend::Scan(sent),
            }
        }
    }

    #[verifier::rlimit(60)]
    fn finish_scan_pa(&mut self, vbias_mv: i32, outcome: ScanPaOutcome)
        requires
            old(self).wf(),
            old(self)@.levels.len() > 0,
            old(self)@.frequencies.len() > 0,
            in_range(vbias_mv),
        ensures
            final(self).wf(),
            final(self)@ == old(self)@.finish_scan_pa(vbias_mv, outcome),
    {
        let level = self.levels[self.level_idx];
        let pa_failure = outcome == ScanPaOutcome::PaFailure;
        let not_settled = outcome == ScanPaOutcome::NotSettled;
        self.pending_result = Some(
            SweepResult {
                level,
                freq_idx: self.freq_idx,
                vbias_mv: Some(clamp(vbias_mv, 0, VBIAS_MAX_MV) as u16),
                detector_mv: None,
                success: outcome == ScanPaOutcome::Success,
                pa_failure,
                not_settled,
            },
        );
        self.add_steps(1);
        self.set_cal_cell(level, cell_status_of(outcome));
        if pa_failure || not_settled {
            self.set_det_cell(level, cell_status_of(outcome));
            self.add_steps(1);
            self.set_level_status(
                level,
                if not_settled {
                    LevelStatus::NotSettled
                } else {
                    LevelStatus::PaFailure
                },
            );
            self.advance_position();
            return;
        }
        let start = self.within_bounds(level, vbias_mv - power_up_step(self.sign_inverted) * 5);
        self.state = EngineState::Automatic(
            AutomaticStep::ScanDetector(
                ScanDetectorState {
                    phase: ScanDetectorPhase::Backoff,
                    vbias_mv: start,
                    wait: None,
                    below: None,
                    above: None,
                    pinned_count: 0,
                    last_reading: None,
                },
            ),
        );
    }

    fn finish_scan_detector(&mut self, detector_mv: u16, success: bool)
        requires
            old(self).wf(),
            old(self)@.levels.len() > 0,
            old(self)@.frequencies.len() > 0,
        ensures
            final(self).wf(),
            final(self)@ == old(self)@.finish_scan_detector(detector_mv, success),
    {
        let level = self.levels[self.level_idx];
        self.pending_result = Some(
            SweepResult {
                level,
                freq_idx: self.freq_idx,
                vbias_mv: None,
                detector_mv: Some(detector_mv),
                success,
                pa_failure: false,
                not_settled: false,
            },
        );
        self.add_steps(1);
        self.set_det_cell(
            level,
            if success {
                CellStatus::Calibrated
            } else {
                CellStatus::Uncalibrated
            },
        );
        self.set_level_status(level, LevelStatus::Done);
        self.advance_position();
    }

    fn current_target_mw(&self) -> (r: u16)
        requires
            self.wf(),
            self@.levels.len() > 0,
        ensures
            r == self@.target_mw(),
    {
        let level = self.levels[self.level_idx];
        match self.target_mw_by_level.get(&level) {
            Some(mw) => *mw,
            None => 0,
        }
    }

    fn go_on_scan_pa(&mut self, st: ScanPaState)
        requires
            old(self).wf(),
            old(self)@.levels.len() > 0,
            old(self)@.frequencies.len() > 0,
            scan_pa_ok(st),
        ensures
            final(self).wf(),
            final(self)@ == old(self)@.go_on_scan_pa(st),
    {
        let level = self.levels[self.level_idx];
        let text = progress_string(
            SweepOp::ScanPa,
            pa_phase_label(st.phase),
            self.frequencies[self.freq_idx],
            Some(st.vbias_mv),
        );
        self.set_level_status(level, LevelStatus::InProgress(text));
        self.state = EngineState::Automatic(AutomaticStep::ScanPa(st));
    }

    fn judge_settle(&mut self, inp: &PollInput, st: ScanPaState)
        requires
            old(self).wf(),
            old(self)@.levels.len() > 0,
            old(self)@.frequencies.len() > 0,
            scan_pa_ok(st),
        ensures
            final(self).wf(),
            final(self)@ == old(self)@.judge_settle(*inp, st),
    {
        let target = Power::from_mw(self.current_target_mw());
        let timed_out = match st.settle_started_instant {
            Some(t) => time_since(t, inp.now) >= SETTLE_BELOW_TARGET_TIMEOUT,
            None => true,
        };
        let down = inp.samples.average.le(target);
        if down || timed_out {
            self.pa_enable_settle_pending = false;
            self.go_on_scan_pa(
                ScanPaState {
                    phase: ScanPaPhase::CoarseRamp,
                    settle_started_instant: None,
                    settle_timed_out: !down || st.settle_timed_out,
                    wait: None,
                    ..st
                },
            );
        } else {
            self.go_on_scan_pa(ScanPaState { wait: None, ..st });
        }
    }

    #[verifier::rlimit(60)]
    fn judge_coarse(&mut self, inp: &PollInput, st: ScanPaState)
        requires
            old(self).wf(),
            old(self)@.levels.len() > 0,
            old(self)@.frequencies.len() > 0,
            scan_pa_ok(st),
        ensures
            final(self).wf(),
            final(self)@ == old(self)@.judge_coarse(*inp, st),
    {
        let target = Power::from_mw(self.current_target_mw());
        let level = self.levels[self.level_idx];
        let avg = inp.samples.average;
        let up: i32 = power_up_step(self.sign_inverted);
        let (bound_lo, bound_hi) = self.effective_bounds(level);
        if target.le(avg) {
            match st.last_below_target_mv {
                None => {
                    let outcome = if st.settle_timed_out {
                        ScanPaOutcome::NotSettled
                    } else {
                        ScanPaOutcome::Uncalibrated
                    };
                    self.finish_scan_pa(st.vbias_mv, outcome);
                },
                Some(fine_start) => {
                    let quarter: i32 = st.vbias_mv * 25 / 100;
                    let margin: i32 = if quarter == 0 { st.coarse_step_mv } else { quarter };
                    let bound = clamp(st.vbias_mv + up * margin, bound_lo, bound_hi);
                    self.go_on_scan_pa(
                        ScanPaState {
                            fine_bound_mv: Some(bound),
                            vbias_mv: fine_start,
                            phase: ScanPaPhase::Fine,
                            wait: None,
                            fine_started_at: inp.samples.newest_at,
                            fine_highest_avg_mw: None,
                            fine_settle_until: Some(moment_after(inp.now, FINE_SETTLE_DELAY)),
                            fine_started_instant: Some(inp.now),
                            ..st
                        },
                    );
                },
            }
        } else {
            let step: i32 = if inp.samples.near_target.le(avg) {
                let halved: i32 = st.coarse_step_mv / 2;
                if halved > 1 {
                    halved
                } else {
                    1
                }
            } else {
                st.coarse_step_mv
            };
            let next: i32 = st.vbias_mv + up * step;
            if bound_lo <= next && next <= bound_hi {
                self.go_on_scan_pa(
                    ScanPaState {
                        coarse_step_mv: step,
                        last_below_target_mv: Some(st.vbias_mv),
                        vbias_mv: next,
                        coarse_steps_taken: st.coarse_steps_taken.wrapping_add(1),
                        wait: None,
                        ..st
                    },
                );
            } else {
                self.finish_scan_pa(st.vbias_mv, ScanPaOutcome::Uncalibrated);
            }
        }
    }

    fn judge_fine(&mut self, inp: &PollInput, st: ScanPaState)
        requires
            old(self).wf(),
            old(self)@.levels.len() > 0,
            old(self)@.frequencies.len() > 0,
            scan_pa_ok(st),
        ensures
            final(self).wf(),
            final(self)@ == old(self)@.judge_fine(*inp, st),
    {
        let target = Power::from_mw(self.current_target_mw());
        let level = self.levels[self.level_idx];
        let (bound_lo, bound_hi) = self.effective_bounds(level);
        let next: i32 = st.vbias_mv + power_up_step(self.sign_inverted);
        let (fine_lo, fine_hi) = match st.fine_bound_mv {
            Some(b) => if self.sign_inverted {
                (if b > bound_lo { b } else { bound_lo }, bound_hi)
            } else {
                (bound_lo, if b < bound_hi { b } else { bound_hi })
            },
            None => (bound_lo, bound_hi),
        };
        if target.le(inp.samples.average) {
            self.finish_scan_pa(st.vbias_mv, ScanPaOutcome::Success);
        } else if fine_lo <= next && next <= fine_hi {
            self.go_on_scan_pa(ScanPaState { vbias_mv: next, wait: None, ..st });
        } else {
            self.finish_scan_pa(st.vbias_mv, ScanPaOutcome::Uncalibrated);
        }
    }

    #[verifier::rlimit(60)]
    fn sample_scan_pa(&mut self, inp: &PollInput, st: ScanPaState) -> (r: PollOutcome)
        requires
            old(self).wf(),
            old(self)@.levels.len() > 0,
            old(self)@.frequencies.len() > 0,
            scan_pa_ok(st),
        ensures
            final(self).wf(),
            final(self)@ == old(self)@.sample_scan_pa(*inp, st).0,
            r == old(self)@.sample_scan_pa(*inp, st).1,
            outcome_ok(r, final(self)@),
    {
        let held = AutomaticStep::ScanPa(st);
        match st.wait {
            None => {
                let wait = SampleWait::new(inp.reading_seq, 4, 0);
                self.hold_or_send(
                    inp,
                    st.vbias_mv,
                    held,
                    AutomaticStep::ScanPa(ScanPaState { wait: Some(wait), ..st }),
                )
            },
            Some(wait) => {
                if !wait.ready(inp.reading_seq) {
                    return self.hold_or_send(inp, st.vbias_mv, held, held);
                }
                match st.phase {
                    ScanPaPhase::Settle => self.judge_settle(inp, st),
                    ScanPaPhase::CoarseRamp => self.judge_coarse(inp, st),
                    ScanPaPhase::Fine => self.judge_fine(inp, st),
                }
                PollOutcome::Nothing
            },
        }
    }

    #[verifier::rlimit(60)]
    fn tick_scan_pa(&mut self, inp: &PollInput, st: ScanPaState) -> (r: PollOutcome)
        requires
            old(self).wf(),
            old(self)@.levels.len() > 0,
            old(self)@.frequencies.len() > 0,
            scan_pa_ok(st),
        ensures
            final(self).wf(),
            final(self)@ == old(self)@.tick_scan_pa(*inp, st).0,
            r == old(self)@.tick_scan_pa(*inp, st).1,
            outcome_ok(r, final(self)@),
    {
        if still_before(self.boost_settle_until, inp.now) {
            let held = AutomaticStep::ScanPa(ScanPaState { wait: None, ..st });
            return self.hold_or_send(inp, st.vbias_mv, held, held);
        }
        self.boost_settle_until = None;
        if st.phase != ScanPaPhase::Fine {
            return self.sample_scan_pa(inp, st);
        }
        match peak_watched(st, inp) {
            None => {
                self.finish_scan_pa(st.vbias_mv, ScanPaOutcome::PaFailure);
                PollOutcome::Nothing
            },
            Some(watched) => {
                if still_before(watched.fine_settle_until, inp.now) {
                    let held = AutomaticStep::ScanPa(ScanPaState { wait: None, ..watched });
                    return self.hold_or_send(inp, st.vbias_mv, held, held);
                }
                self.sample_scan_pa(inp, ScanPaState { fine_settle_until: None, ..watched })
            },
        }
    }

    fn go_on_scan_detector(&mut self, st: ScanDetectorState)
        requires
            old(self).wf(),
            old(self)@.levels.len() > 0,
            old(self)@.frequencies.len() > 0,
            scan_detector_ok(st),
        ensures
            final(self).wf(),
            final(self)@ == old(self)@.go_on_scan_detector(st),
    {
        let level = self.levels[self.level_idx];
        let text = progress_string(
            SweepOp::ScanDetector,
            detector_phase_label(st.phase),
            self.frequencies[self.freq_idx],
            Some(st.vbias_mv),
        );
        self.set_level_status(level, LevelStatus::InProgress(text));
        self.state = EngineState::Automatic(AutomaticStep::ScanDetector(st));
    }

    fn moved(&self, st: ScanDetectorState, desired: i32) -> (r: ScanDetectorState)
        requires
            self.wf(),
            self@.levels.len() > 0,
            scan_detector_ok(st),
        ensures
            r == self@.moved(st, desired as int),
            in_range(r.vbias_mv),
    {
        let level = self.levels[self.level_idx];
        let mv = self.within_bounds(level, desired);
        ScanDetectorState {
            pinned_count: if desired != mv { st.pinned_count + 1 } else { 0 },
            vbias_mv: mv,
            wait: None,
            last_reading: None,
            ..st
        }
    }

    fn judge_backoff(&mut self, inp: &PollInput, st: ScanDetectorState, detector_mv: u16)
        requires
            old(self).wf(),
            old(self)@.levels.len() > 0,
            old(self)@.frequencies.len() > 0,
            scan_detector_ok(st),
        ensures
            final(self).wf(),
            final(self)@ == old(self)@.judge_backoff(*inp, st, detector_mv),
    {
        let target = Power::from_mw(self.current_target_mw());
        if inp.samples.average.lt(target) {
            self.go_on_scan_detector(
                ScanDetectorState {
                    phase: ScanDetectorPhase::Bracket,
                    wait: None,
                    last_reading: None,
                    pinned_count: 0,
                    ..st
                },
            );
        } else {
            let next = self.moved(st, st.vbias_mv - power_up_step(self.sign_inverted));
            if next.pinned_count >= PINNED_LIMIT {
                self.finish_scan_detector(detector_mv, false);
            } else {
                self.go_on_scan_detector(next);
            }
        }
    }

    #[verifier::rlimit(60)]
    fn judge_bracket(&mut self, inp: &PollInput, st: ScanDetectorState, detector_mv: u16) -> (r:
        PollOutcome)
        requires
            old(self).wf(),
            old(self)@.levels.len() > 0,
            old(self)@.frequencies.len() > 0,
            scan_detector_ok(st),
        ensures
            final(self).wf(),
            final(self)@ == old(self)@.judge_bracket(*inp, st, detector_mv).0,
            r == old(self)@.judge_bracket(*inp, st, detector_mv).1,
            outcome_ok(r, final(self)@),
    {
        let target_mw = self.current_target_mw();
        let target = Power::from_mw(target_mw);
        let avg = inp.samples.average;
        let up: i32 = power_up_step(self.sign_inverted);
        let here = DetectorPoint { average: avg, detector_mv };
        let (captured, desired) = if avg.lt(inp.samples.band_low) {
            (st, st.vbias_mv + up * 2)
        } else if inp.samples.band_high.lt(avg) {
            (st, st.vbias_mv - up * 2)
        } else if avg.lt(target) {
            (ScanDetectorState { below: Some(here), ..st }, st.vbias_mv + up)
        } else {
            (ScanDetectorState { above: Some(here), ..st }, st.vbias_mv - up)
        };
        let next = self.moved(captured, desired);
        if next.pinned_count >= PINNED_LIMIT {
            self.finish_scan_detector(detector_mv, false);
            return PollOutcome::Nothing;
        }
        if let (Some(below), Some(above)) = (next.below, next.above) {
            return PollOutcome::Interpolate { target_mw, below, above };
        }
        self.go_on_scan_detector(next);
        PollOutcome::Nothing
    }

    #[verifier::rlimit(60)]
    fn tick_scan_detector(&mut self, inp: &PollInput, st: ScanDetectorState) -> (r: PollOutcome)
        requires
            old(self).wf(),
            old(self)@.levels.len() > 0,
            old(self)@.frequencies.len() > 0,
            scan_detector_ok(st),
        ensures
            final(self).wf(),
            final(self)@ == old(self)@.tick_scan_detector(*inp, st).0,
            r == old(self)@.tick_scan_detector(*inp, st).1,
            outcome_ok(r, final(self)@),
    {
        if still_before(self.boost_settle_until, inp.now) {
            let held = AutomaticStep::ScanDetector(ScanDetectorState { wait: None, ..st });
            return self.hold_or_send(inp, st.vbias_mv, held, held);
        }
        self.boost_settle_until = None;
        let held = AutomaticStep::ScanDetector(st);
        match st.wait {
            None => {
                let wait = match st.phase {
                    ScanDetectorPhase::Backoff => SampleWait::new(inp.reading_seq, 1, 0),
                    ScanDetectorPhase::Bracket => SampleWait::new(inp.reading_seq, 20, 10),
                };
                self.hold_or_send(
                    inp,
                    st.vbias_mv,
                    held,
                    AutomaticStep::ScanDetector(ScanDetectorState { wait: Some(wait), ..st }),
                )
            },
            Some(wait) => {
                if !wait.ready(inp.reading_seq) {
                    return self.hold_or_send(inp, st.vbias_mv, held, held);
                }
                match st.last_reading {
                    None => self.hold_or_send(inp, st.vbias_mv, held, held),
                    Some(reading) => match st.phase {
                        ScanDetectorPhase::Backoff => {
                            self.judge_backoff(inp, st, reading.detector_mv);
                            PollOutcome::Nothing
                        },
                        ScanDetectorPhase::Bracket => self.judge_bracket(
                            inp,
                            st,
                            reading.detector_mv,
                        ),
                    },
                }
            },
        }
    }

    #[verifier::rlimit(60)]
    fn enter_point(&mut self, inp: &PollInput) -> (r: PollOutcome)
        requires
            old(self).wf(),
            old(self)@.levels.len() > 0,
            old(self)@.frequencies.len() > 0,
        ensures
            final(self).wf(),
            final(self)@ == old(self)@.enter_point(*inp).0,
            r == old(self)@.enter_point(*inp).1,
            outcome_ok(r, final(self)@),
    {
        let level = self.levels[self.level_idx];
        let (bound_lo, bound_hi) = self.effective_bounds(level);
        let start_vbias_mv = coarse_ramp_start_vbias_mv(self.sign_inverted, bound_lo, bound_hi);
        let needs_settle = self.pa_enable_settle_pending;
        let st = ScanPaState {
            phase: if needs_settle {
                ScanPaPhase::Settle
            } else {
                ScanPaPhase::CoarseRamp
            },
            vbias_mv: start_vbias_mv,
            wait: None,
            settle_started_instant: if needs_settle {
                Some(inp.now)
            } else {
                None
            },
            settle_timed_out: false,
            coarse_steps_taken: 0,
            last_below_target_mv: None,
            coarse_step_mv: COARSE_RAMP_STEP_MV,
            fine_bound_mv: None,
            fine_started_at: None,
            fine_highest_avg_mw: None,
            fine_settle_until: None,
            fine_started_instant: None,
        };
        let text = progress_string(
            SweepOp::ScanPa,
            pa_phase_label(st.phase),
            self.frequencies[self.freq_idx],
            None,
        );
        self.set_level_status(level, LevelStatus::InProgress(text));
        self.tick_scan_pa(inp, st)
    }

    fn push_frequency(&mut self, freq_mhz: u16) -> (r: PollOutcome)
        requires
            old(self).wf(),
        ensures
            final(self).wf(),
            final(self)@ == old(self)@.push_frequency(freq_mhz).0,
            r == old(self)@.push_frequency(freq_mhz).1,
            outcome_ok(r, final(self)@),
    {
        let power: u8 = if self.levels.len() > 0 { self.levels[0] } else { 1 };
        self.pending_frequency_push = None;
        PollOutcome::Send {
            message: Message::VtxConfig { freq_mhz, power, pitmode: false },
            after: AfterSend::RequestVtxConfig,
        }
    }

    #[verifier::rlimit(60)]
    fn poll_automatic(&mut self, inp: &PollInput, step: AutomaticStep) -> (r: PollOutcome)
        requires
            old(self).wf(),
            old(self)@.state == EngineState::Automatic(step),
        ensures
            final(self).wf(),
            final(self)@ == old(self)@.poll_automatic(*inp, step).0,
            r == old(self)@.poll_automatic(*inp, step).1,
            outcome_ok(r, final(self)@),
    {
        if !inp.can_send {
            return PollOutcome::Nothing;
        }
        let vbias_mv_now = self.scan_vbias_mv();
        if self.maybe_trip_connection_lost(inp, vbias_mv_now) {
            return PollOutcome::Nothing;
        }
        if let Some(freq_mhz) = self.pending_frequency_push {
            return self.push_frequency(freq_mhz);
        }
        self.state = EngineState::Idle;
        match step {
            AutomaticStep::EnteringPoint => self.enter_point(inp),
            AutomaticStep::ScanPa(st) => self.tick_scan_pa(inp, st),
            AutomaticStep::ScanDetector(st) => self.tick_scan_detector(inp, st),
        }
    }

    fn poll_manual(&mut self, inp: &PollInput) -> (r: PollOutcome)
        requires
            old(self).wf(),
            old(self)@.state == EngineState::Manual,
        ensures
            final(self).wf(),
            final(self)@ == old(self)@.poll_manual(*inp).0,
            r == old(self)@.poll_manual(*inp).1,
            outcome_ok(r, final(self)@),
    {
        if !inp.can_send {
            return PollOutcome::Nothing;
        }
        if self.maybe_trip_connection_lost(inp, self.manual_dac_mv) {
            return PollOutcome::Nothing;
        }
        if let Some(freq_mhz) = self.pending_frequency_push {
            return self.push_frequency(freq_mhz);
        }
        if !self.manual_send_pending || self.is_throttled(inp.now) {
            return PollOutcome::Nothing;
        }
        PollOutcome::Send {
            message: Message::Calibration {
                level: self.levels[self.level_idx],
                mv: Some(self.manual_dac_mv as u16),
                session_active: self.session_active,
                boost_mode: self.boost_mode,
            },
            after: AfterSend::Manual,
        }
    }

    fn poll_pending(&mut self, inp: &PollInput) -> (r: PollOutcome)
        requires
            old(self).wf(),
            old(self)@.pending_sends.len() > 0,
        ensures
            final(self).wf(),
            final(self)@ == old(self)@.poll_pending(*inp).0,
            r == old(self)@.poll_pending(*inp).1,
            outcome_ok(r, final(self)@),
    {
        if !inp.can_send {
            return PollOutcome::Nothing;
        }
        let ghost sends = self@.pending_sends;
        match self.pending_sends.pop_front() {
            None => PollOutcome::Nothing,
            Some(send) => {
                assert(self@.pending_sends =~= sends.skip(1));
                let message = match send {
                    PendingSend::SafeState { freq_mhz, power } => Message::VtxConfig {
                        freq_mhz,
                        power,
                        pitmode: true,
                    },
                    PendingSend::CalibrationState => Message::CalibrationState {
                        session_active: self.session_active,
                        boost_mode: self.boost_mode,
                    },
                    PendingSend::RequestVtxConfig => Message::RequestVtxConfig,
                    PendingSend::DacLow { level, vbias_mv } => Message::Calibration {
                        level,
                        mv: Some(vbias_mv),
                        session_active: self.session_active,
                        boost_mode: BoostMode::Off,
                    },
                    PendingSend::RestoreBoost { level } => Message::Calibration {
                        level,
                        mv: None,
                        session_active: self.session_active,
                        boost_mode: BoostMode::On,
                    },
                };
                let after = match send {
                    PendingSend::SafeState { .. } => AfterSend::RequestVtxConfig,
                    _ => AfterSend::Nothing,
                };
                PollOutcome::Send { message, after }
            },
        }
    }

    fn note_boost(&mut self, inp: &PollInput)
        requires
            old(self).wf(),
        ensures
            final(self).wf(),
            final(self)@ == old(self)@.note_boost(*inp),
    {
        if let Some(reading) = inp.latest_reading {
            if let Some(boost_on) = reading.boost_on {
                if boost_on && self.last_boost_on != Some(true) {
                    self.boost_settle_until = Some(
                        moment_after(inp.now, BOOST_ENABLE_SETTLE_DELAY),
                    );
                    self.pa_enable_settle_pending = true;
                }
                self.last_boost_on = Some(boost_on);
            }
        }
    }

    #[verifier::rlimit(60)]
    fn poll_dispatch(&mut self, inp: &PollInput) -> (r: PollOutcome)
        requires
            old(self).wf(),
        ensures
            final(self).wf(),
            final(self)@ == old(self)@.poll_dispatch(*inp).0,
            r == old(self)@.poll_dispatch(*inp).1,
            outcome_ok(r, final(self)@),
    {
        reveal(EngineView::poll_dispatch);
        self.note_boost(inp);
        if self.pending_sends.len() > 0 {
            return self.poll_pending(inp);
        }
        match self.state {
            EngineState::ConnectionLost { level, freq_mhz, vbias_mv_at_loss, reason, resume } => {
                if inp.vtx_ready && inp.meter_ready {
                    self.auto_resume(level, freq_mhz, vbias_mv_at_loss, reason, resume);
                }
                PollOutcome::Nothing
            },
            EngineState::Manual => self.poll_manual(inp),
            EngineState::Automatic(step) => self.poll_automatic(inp, step),
            _ => PollOutcome::Nothing,
        }
    }

    /// One turn of the sweep. Where it wants something sent and that fails, nothing
    /// more is to be done; where it is sent, [`SweepEngine::sent`] follows. Where it
    /// wants an interpolation, [`SweepEngine::interpolated`] follows.
    #[verifier::rlimit(60)]
    pub fn poll(&mut self, inp: &PollInput) -> (r: PollOutcome)
        requires
            old(self).wf(),
        ensures
            final(self).wf(),
            final(self)@ == old(self)@.poll(*inp).0,
            r == old(self)@.poll(*inp).1,
            outcome_ok(r, final(self)@),
    {
        let outcome = self.poll_dispatch(inp);
        if let EngineState::Automatic(step) = self.state {
            self.state = EngineState::Automatic(with_reading(step, inp.latest_reading));
        }
        match outcome {
            PollOutcome::Send { message, after: AfterSend::Scan(step) } => PollOutcome::Send {
                message,
                after: AfterSend::Scan(with_reading(step, inp.latest_reading)),
            },
            _ => outcome,
        }
    }

    /// The message of the last poll went out at `now`.
    pub fn sent(&mut self, link: &mut MspLink, message: &Message, after: AfterSend, now: u64)
        requires
            old(self).wf(),
            old(self)@.can_take(after),
        ensures
            final(self).wf(),
            final(self)@ == old(self)@.sent(after, now),
            *final(link) == old(link).after_sending(message.spec_kind(), now),
    {
        link.note_sent(message.kind(), now);
        match after {
            AfterSend::Nothing => {},
            AfterSend::RequestVtxConfig => {
                self.queue(PendingSend::RequestVtxConfig);
            },
            AfterSend::Manual => {
                self.last_send = Some(now);
                self.manual_send_pending = false;
            },
            AfterSend::Scan(step) => {
                self.last_send = Some(now);
                self.state = EngineState::Automatic(step);
            },
        }
    }

    /// The detector voltage that the last poll asked for.
    pub fn interpolated(&mut self, detector_mv: u16)
        requires
            old(self).wf(),
            old(self)@.levels.len() > 0,
            old(self)@.frequencies.len() > 0,
        ensures
            final(self).wf(),
            final(self)@ == old(self)@.finish_scan_detector(detector_mv, true),
    {
        self.finish_scan_detector(detector_mv, true);
    }

    /// Which samples the next poll is to be told of.
    pub fn sample_request(&self) -> (r: SampleRequest)
        requires
            self.wf(),
        ensures
            r == self@.sample_request(),
    {
        let (wait, rolling_since) = match self.state {
            EngineState::Automatic(AutomaticStep::ScanPa(st)) => (
                st.wait,
                if st.phase == ScanPaPhase::Fine {
                    st.fine_started_at
                } else {
                    None
                },
            ),
            EngineState::Automatic(AutomaticStep::ScanDetector(st)) => (st.wait, None),
            _ => (None, None),
        };
        SampleRequest {
            newest: match wait {
                Some(w) => w.needed - w.skip_first,
                None => 0,
            },
            rolling_since,
            target_mw: if self.levels.len() > 0 { self.current_target_mw() } else { 0 },
        }
    }

    pub fn current_step(&self) -> (r: Option<CurrentStep>)
        requires
            self.wf(),
        ensures
            r == self@.current_step(),
    {
        if self.levels.len() == 0 {
            return None;
        }
        let level = self.levels[self.level_idx];
        match self.state {
            EngineState::Manual => Some(
                CurrentStep {
                    level,
                    freq_idx: self.freq_idx,
                    vbias_mv: Some(self.manual_dac_mv),
                    detector_mv: None,
                    cal_is_current: true,
                    det_is_current: true,
                },
            ),
            EngineState::Automatic(AutomaticStep::ScanPa(st)) => Some(
                CurrentStep {
                    level,
                    freq_idx: self.freq_idx,
                    vbias_mv: Some(st.vbias_mv),
                    detector_mv: None,
                    cal_is_current: true,
                    det_is_current: false,
                },
            ),
            EngineState::Automatic(AutomaticStep::ScanDetector(st)) => Some(
                CurrentStep {
                    level,
                    freq_idx: self.freq_idx,
                    vbias_mv: None,
                    detector_mv: match st.last_reading {
                        Some(r) => Some(r.detector_mv as i32),
                        None => None,
                    },
                    cal_is_current: false,
                    det_is_current: true,
                },
            ),
            _ => None,
        }
    }

    /// What the sweep is doing, for display.
    pub fn debug_state(&self, now: u64) -> (r: StepDebugInfo)
        ensures
            match self@.state {
                EngineState::Automatic(AutomaticStep::ScanPa(st)) => {
                    &&& r.scan_phase@ == (match st.phase {
                        ScanPaPhase::Settle => "Settle"@,
                        ScanPaPhase::CoarseRamp => "Coarse"@,
                        ScanPaPhase::Fine => "Fine"@,
                    })
                    &&& r.drop_detector_active == (st.phase is Fine && (st.fine_started_instant
                        matches Some(t) && elapsed(t, now) >= PA_FAILURE_GRACE_DURATION))
                    &&& r.fine_bound_mv == st.fine_bound_mv
                    &&& r.fine_highest_avg_mw == (match st.fine_highest_avg_mw {
                        Some(peak) => Some(peak.average),
                        None => None,
                    })
                    &&& r.detector is None
                },
                EngineState::Automatic(AutomaticStep::ScanDetector(st)) => {
                    &&& r.scan_phase@ == "Inactive"@
                    &&& !r.drop_detector_active
                    &&& r.fine_bound_mv is None
                    &&& r.fine_highest_avg_mw is None
                    &&& r.detector matches Some(d) && d.phase@ == (match st.phase {
                        ScanDetectorPhase::Backoff => "Backoff"@,
                        ScanDetectorPhase::Bracket => "Bracket"@,
                    }) && d.below == st.below && d.above == st.above && d.pinned_count
                        == st.pinned_count
                },
                _ => r.scan_phase@ == "Inactive"@ && !r.drop_detector_active
                    && r.fine_bound_mv is None && r.fine_highest_avg_mw is None && r.detector is None,
            },
    {
        match self.state {
            EngineState::Automatic(AutomaticStep::ScanPa(st)) => {
                let scan_phase = match st.phase {
                    ScanPaPhase::Settle => "Settle",
                    ScanPaPhase::CoarseRamp => "Coarse",
                    ScanPaPhase::Fine => "Fine",
                };
                let grace_over = match st.fine_started_instant {
                    Some(t) => time_since(t, now) >= PA_FAILURE_GRACE_DURATION,
                    None => false,
                };
                StepDebugInfo {
                    scan_phase,
                    drop_detector_active: st.phase == ScanPaPhase::Fine && grace_over,
                    fine_bound_mv: st.fine_bound_mv,
                    fine_highest_avg_mw: match st.fine_highest_avg_mw {
                        Some(peak) => Some(peak.average),
                        None => None,
                    },
                    detector: None,
                }
            },
            EngineState::Automatic(AutomaticStep::ScanDetector(st)) => {
                let phase = match st.phase {
                    ScanDetectorPhase::Backoff => "Backoff",
                    ScanDetectorPhase::Bracket => "Bracket",
                };
                StepDebugInfo {
                    scan_phase: "Inactive",
                    drop_detector_active: false,
                    fine_bound_mv: None,
                    fine_highest_avg_mw: None,
                    detector: Some(
                        DetectorDebugInfo {
                            phase,
                            below: st.below,
                            above: st.above,
                            pinned_count: st.pinned_count,
                        },
                    ),
                }
            },
            _ => StepDebugInfo {
                scan_phase: "Inactive",
                drop_detector_active: false,
                fine_bound_mv: None,
                fine_highest_avg_mw: None,
                detector: None,
            },
        }
    }
}

fn with_reading(step: AutomaticStep, reading: Option<PaCalibrationReading>) -> (r: AutomaticStep)
    ensures
        r == step_with_reading(step, reading),
{
    match (step, reading) {
        (AutomaticStep::ScanDetector(st), Some(r)) => AutomaticStep::ScanDetector(
            ScanDetectorState { last_reading: Some(r), ..st },
        ),
        _ => step,
    }
}

} // verus!

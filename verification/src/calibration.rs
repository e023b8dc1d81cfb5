//! The basic sweep: for each power level at each frequency the bias that gives the
//! target power, and what the detector reads there, without limits and without a watch
//! on the connection.
//!
//! All levels of one frequency come before the next frequency, so that a meter that is
//! set by hand is set once for each. A bias is judged by samples of the meter's history that
//! came in after it was sent. Every step towards more power or towards less follows the sign of the
//! DAC.

use std::collections::HashMap;
use vstd::prelude::*;
#[allow(unused_imports)]
use vstd::string::*;

use crate::calibration_engine::model::{clamped, up};
use crate::calibration_engine::types::{
    DetectorPoint,
    LevelStatus,
    LevelStatusView,
    SampleWait,
    SweepOp,
};
use crate::calibration_engine::{abort_all, all_pending, power_up_step, status_views, types};
use crate::clock::{elapsed, time_since};
use crate::msp::frame::{build_command_v2, command_v2};
use crate::msp::{
    encode_pa_calibration_request,
    function,
    pa_calibration_request,
    PaCalibrationReading,
};
use crate::power::Power;
use crate::text::{decimal, push_decimal, push_signed, signed_decimal};

verus! {

broadcast use vstd::std_specs::hash::group_hash_axioms;

/// The bias at which a point begins.
pub const START_MV: i32 = 3200;

#[derive(Clone, Copy, Debug, PartialEq, Eq, Structural)]
pub enum ScanPaPhase {
    CoarseRamp,
    Backoff,
    Fine,
}

#[derive(Clone, Copy, Debug, PartialEq, Eq, Structural)]
pub struct ScanPaState {
    pub phase: ScanPaPhase,
    pub mv: i32,
    pub wait: Option<SampleWait>,
}

#[derive(Clone, Copy, Debug, PartialEq, Eq, Structural)]
pub enum ScanDetectorPhase {
    Backoff,
    Bracket,
}

#[derive(Clone, Copy, Debug, PartialEq, Eq, Structural)]
pub struct ScanDetectorState {
    pub phase: ScanDetectorPhase,
    pub mv: i32,
    pub wait: Option<SampleWait>,
    pub below: Option<DetectorPoint>,
    pub above: Option<DetectorPoint>,
}

#[derive(Clone, Copy, Debug, PartialEq, Eq, Structural)]
pub enum StepState {
    Pa(ScanPaState),
    Detector(ScanDetectorState),
}

#[derive(Clone, Copy, Debug, PartialEq, Eq, Structural)]
pub enum EngineState {
    Idle,
    AwaitingFreqConfirm { freq_mhz: u16 },
    Running,
}

#[derive(Clone, Copy, Debug, PartialEq, Eq, Structural)]
pub struct SweepResult {
    pub level: u8,
    pub freq_idx: usize,
    pub calibration_mv: Option<u16>,
    pub detector_mv: Option<u16>,
}

/// What the sweep wants done.
#[derive(Clone, Copy, Debug, PartialEq, Eq, Structural)]
pub enum Outcome {
    Nothing,
    /// This bias is to be sent for this level; where that is done, the point goes on
    /// with the step, and else it begins anew.
    Send { level: u8, mv: u16, step: StepState },
    /// The detector voltage at the target, between two points.
    Interpolate { target_mw: u16, below: DetectorPoint, above: DetectorPoint },
}

impl Outcome {
    /// What goes to the VTX for this outcome: for a bias a calibration request with it.
    pub open spec fn bytes(self, session_active: bool, boost_mode: u8) -> Option<Seq<u8>> {
        match self {
            Outcome::Send { level, mv, .. } => Some(
                command_v2(
                    function::SET_PACALIBRATION,
                    pa_calibration_request(level, Some(mv), session_active, boost_mode),
                ),
            ),
            _ => None,
        }
    }

    /// The frame that is to be sent, if any. Whether a session is open and what the
    /// amplifier does is not the sweep's to say.
    pub fn frame(&self, session_active: bool, boost_mode: u8) -> (r: Option<Vec<u8>>)
        ensures
            match r {
                Some(frame) => self.bytes(session_active, boost_mode) == Some(frame@),
                None => self.bytes(session_active, boost_mode) is None,
            },
    {
        match *self {
            Outcome::Send { level, mv, .. } => {
                Some(calibration_frame(level, mv, session_active, boost_mode))
            },
            _ => None,
        }
    }
}

/// The command that gives a level a bias.
pub fn calibration_frame(level: u8, mv: u16, session_active: bool, boost_mode: u8) -> (r: Vec<u8>)
    ensures
        r@ == command_v2(
            function::SET_PACALIBRATION,
            pa_calibration_request(level, Some(mv), session_active, boost_mode),
        ),
{
    let payload = encode_pa_calibration_request(level, Some(mv), session_active, boost_mode);
    build_command_v2(function::SET_PACALIBRATION, Some(payload.as_slice()))
}

/// What the sweep learns with each poll.
#[derive(Clone, Copy, Debug, PartialEq, Eq, Structural)]
pub struct Input {
    pub now: u64,
    /// How many samples have come in from the meter so far, those that its history has
    /// forgotten since included.
    pub history_len: u64,
    pub latest_reading: Option<PaCalibrationReading>,
    /// The average of the newest samples, as many as are waited for.
    pub average: Power,
    /// Four fifths of the target.
    pub near_target: Power,
    /// The target less the tolerance.
    pub band_low: Power,
    /// The target and the tolerance.
    pub band_high: Power,
}

#[verifier::ext_equal]
pub struct SweepView {
    pub levels: Seq<u8>,
    pub frequencies: Seq<u16>,
    pub sign_inverted: bool,
    pub targets: Map<u8, u16>,
    pub sweep_hz: u32,
    pub state: EngineState,
    pub freq_idx: usize,
    pub level_idx: usize,
    pub step: Option<StepState>,
    pub last_send: Option<u64>,
    pub level_status: Map<u8, LevelStatusView>,
    pub total_steps: usize,
    pub completed_steps: usize,
    pub pending_result: Option<SweepResult>,
}

pub open spec fn pa_words(phase: ScanPaPhase) -> Seq<char> {
    match phase {
        ScanPaPhase::CoarseRamp => "coarse ramp"@,
        ScanPaPhase::Backoff => "backoff"@,
        ScanPaPhase::Fine => "fine"@,
    }
}

pub open spec fn detector_words(phase: ScanDetectorPhase) -> Seq<char> {
    match phase {
        ScanDetectorPhase::Backoff => "backoff"@,
        ScanDetectorPhase::Bracket => "bracket"@,
    }
}

/// What a scan says of itself.
pub open spec fn progress_words(
    op: SweepOp,
    phase: Seq<char>,
    freq_mhz: u16,
    mv: Option<i32>,
) -> Seq<char> {
    let at = op.spec_label() + " / "@ + phase + " @ "@ + decimal(freq_mhz as nat) + "MHz"@;
    match mv {
        Some(mv) => at + " mv="@ + signed_decimal(mv as int),
        None => at,
    }
}

pub open spec fn on_scale(mv: i32) -> bool {
    0 <= mv <= types::VBIAS_MAX_MV
}

/// A bias moved by so many millivolts.
pub open spec fn moved(mv: i32, by: int) -> i32 {
    mv.wrapping_add(by as i32)
}

pub open spec fn pa_wait(phase: ScanPaPhase, len: u64) -> SampleWait {
    match phase {
        ScanPaPhase::Backoff => SampleWait { start_seq: len, needed: 1, skip_first: 0 },
        _ => SampleWait { start_seq: len, needed: 4, skip_first: 0 },
    }
}

pub open spec fn detector_wait(phase: ScanDetectorPhase, len: u64) -> SampleWait {
    match phase {
        ScanDetectorPhase::Backoff => SampleWait { start_seq: len, needed: 1, skip_first: 0 },
        ScanDetectorPhase::Bracket => SampleWait { start_seq: len, needed: 20, skip_first: 10 },
    }
}

impl SweepView {
    pub open spec fn wf(self) -> bool {
        &&& self.level_idx <= self.levels.len()
        &&& self.freq_idx <= self.frequencies.len()
        &&& self.state != EngineState::Idle ==> self.freq_idx < self.frequencies.len()
        &&& forall|l: u8| #[trigger]
            self.level_status.contains_key(l) <==> self.levels.contains(l)
    }

    pub open spec fn fresh(
        levels: Seq<u8>,
        frequencies: Seq<u16>,
        sign_inverted: bool,
        targets: Map<u8, u16>,
        meter_max_hz: u32,
    ) -> SweepView {
        SweepView {
            levels,
            frequencies,
            sign_inverted,
            targets,
            sweep_hz: if meter_max_hz < 10 { meter_max_hz } else { 10 },
            state: EngineState::Idle,
            freq_idx: 0,
            level_idx: 0,
            step: None,
            last_send: None,
            level_status: Map::new(|l: u8| levels.contains(l), |l: u8| LevelStatusView::Pending),
            total_steps: (levels.len() * frequencies.len() * 2) as usize,
            completed_steps: 0,
            pending_result: None,
        }
    }

    pub open spec fn level(self) -> u8 {
        self.levels[self.level_idx as int]
    }

    pub open spec fn freq_mhz(self) -> u16 {
        self.frequencies[self.freq_idx as int]
    }

    pub open spec fn target_mw(self) -> u16 {
        if self.targets.contains_key(self.level()) {
            self.targets[self.level()]
        } else {
            0
        }
    }

    pub open spec fn target(self) -> Power {
        Power::of_mw(self.target_mw())
    }

    pub open spec fn start(self, requires_manual_frequency: bool) -> SweepView {
        if self.levels.len() == 0 || self.frequencies.len() == 0 {
            SweepView { state: EngineState::Idle, ..self }
        } else {
            SweepView {
                freq_idx: 0,
                level_idx: 0,
                step: None,
                state: if requires_manual_frequency {
                    EngineState::AwaitingFreqConfirm { freq_mhz: self.frequencies[0] }
                } else {
                    EngineState::Running
                },
                ..self
            }
        }
    }

    pub open spec fn confirm_frequency(self) -> SweepView {
        if self.state is AwaitingFreqConfirm {
            SweepView { state: EngineState::Running, ..self }
        } else {
            self
        }
    }

    pub open spec fn abort(self) -> SweepView {
        SweepView {
            level_status: Map::new(
                |l: u8| self.level_status.contains_key(l),
                |l: u8|
                    if self.level_status[l] is Done {
                        LevelStatusView::Done
                    } else {
                        LevelStatusView::Aborted
                    },
            ),
            state: EngineState::Idle,
            step: None,
            ..self
        }
    }

    pub open spec fn throttled(self, now: u64) -> bool {
        self.last_send matches Some(t) && elapsed(t, now) < types::SEND_INTERVAL
    }

    pub open spec fn with_level_status(self, status: LevelStatusView) -> SweepView {
        SweepView { level_status: self.level_status.insert(self.level(), status), ..self }
    }

    /// The point goes on as `held` while nothing may be sent; else the bias is sent again,
    /// and the point goes on as `sent`.
    pub open spec fn hold_or_send(self, inp: Input, mv: i32, held: StepState, sent: StepState) -> (
        SweepView,
        Outcome,
    ) {
        if self.throttled(inp.now) {
            (SweepView { step: Some(held), ..self }, Outcome::Nothing)
        } else {
            (
                SweepView { step: None, ..self },
                Outcome::Send {
                    level: self.level(),
                    mv: clamped(mv as int, 0, types::VBIAS_MAX_MV as int) as u16,
                    step: sent,
                },
            )
        }
    }

    /// After the last level of a frequency comes the next frequency; after the last
    /// frequency the sweep is over.
    pub open spec fn next_frequency(self) -> SweepView {
        let next = SweepView {
            freq_idx: (self.freq_idx + 1) as usize,
            level_idx: 0,
            step: None,
            ..self
        };
        SweepView {
            state: if next.freq_idx >= self.frequencies.len() {
                EngineState::Idle
            } else {
                EngineState::AwaitingFreqConfirm { freq_mhz: next.freq_mhz() }
            },
            ..next
        }
    }

    /// Where the search for the detector begins: a little below the power that was found.
    pub open spec fn detector_start(self, mv: i32) -> i32 {
        let start = moved(mv, -up(self.sign_inverted) * 5);
        if start > 0 {
            start
        } else {
            0
        }
    }

    pub open spec fn finish_scan_pa(self, mv: i32) -> SweepView {
        SweepView {
            completed_steps: self.completed_steps.wrapping_add(1),
            pending_result: Some(
                SweepResult {
                    level: self.level(),
                    freq_idx: self.freq_idx,
                    calibration_mv: Some(clamped(mv as int, 0, types::VBIAS_MAX_MV as int) as u16),
                    detector_mv: None,
                },
            ),
            step: Some(
                StepState::Detector(
                    ScanDetectorState {
                        phase: ScanDetectorPhase::Backoff,
                        mv: self.detector_start(mv),
                        wait: None,
                        below: None,
                        above: None,
                    },
                ),
            ),
            ..self
        }
    }

    pub open spec fn finish_scan_detector(self, detector_mv: u16) -> SweepView {
        SweepView {
            completed_steps: self.completed_steps.wrapping_add(1),
            pending_result: Some(
                SweepResult {
                    level: self.level(),
                    freq_idx: self.freq_idx,
                    calibration_mv: None,
                    detector_mv: Some(detector_mv),
                },
            ),
            step: None,
            level_idx: (self.level_idx + 1) as usize,
            ..self.with_level_status(LevelStatusView::Done)
        }
    }

    pub open spec fn go_on_pa(self, st: ScanPaState) -> SweepView {
        SweepView {
            step: Some(StepState::Pa(st)),
            ..self.with_level_status(
                LevelStatusView::InProgress(
                    progress_words(
                        SweepOp::ScanPa,
                        pa_words(st.phase),
                        self.freq_mhz(),
                        Some(st.mv),
                    ),
                ),
            )
        }
    }

    /// What an average means for the search for the bias: coarse steps until the power is
    /// near the target, back until it is below, and fine steps until it is reached.
    pub open spec fn judge_pa(self, inp: Input, st: ScanPaState) -> SweepView {
        let u = up(self.sign_inverted);
        match st.phase {
            ScanPaPhase::CoarseRamp => if inp.near_target.at_most(inp.average) {
                self.go_on_pa(ScanPaState { phase: ScanPaPhase::Backoff, wait: None, ..st })
            } else if !on_scale(moved(st.mv, u * 50)) {
                self.finish_scan_pa(st.mv)
            } else {
                self.go_on_pa(ScanPaState { mv: moved(st.mv, u * 50), wait: None, ..st })
            },
            ScanPaPhase::Backoff => if inp.average.below(self.target()) {
                self.go_on_pa(ScanPaState { phase: ScanPaPhase::Fine, wait: None, ..st })
            } else {
                self.go_on_pa(ScanPaState { mv: moved(st.mv, -u * 5), wait: None, ..st })
            },
            ScanPaPhase::Fine => if self.target().at_most(inp.average) || !on_scale(
                moved(st.mv, u),
            ) {
                self.finish_scan_pa(st.mv)
            } else {
                self.go_on_pa(ScanPaState { mv: moved(st.mv, u), wait: None, ..st })
            },
        }
    }

    pub open spec fn tick_pa(self, inp: Input, st: ScanPaState) -> (SweepView, Outcome) {
        let held = StepState::Pa(st);
        match st.wait {
            None => self.hold_or_send(
                inp,
                st.mv,
                held,
                StepState::Pa(
                    ScanPaState { wait: Some(pa_wait(st.phase, inp.history_len)), ..st },
                ),
            ),
            Some(w) => if w.is_ready(inp.history_len) {
                (self.judge_pa(inp, st), Outcome::Nothing)
            } else {
                self.hold_or_send(inp, st.mv, held, held)
            },
        }
    }

    pub open spec fn go_on_detector(self, st: ScanDetectorState) -> SweepView {
        SweepView {
            step: Some(StepState::Detector(st)),
            ..self.with_level_status(
                LevelStatusView::InProgress(
                    progress_words(
                        SweepOp::ScanDetector,
                        detector_words(st.phase),
                        self.freq_mhz(),
                        Some(st.mv),
                    ),
                ),
            )
        }
    }

    /// The search for a point on either side of the target, close to it.
    pub open spec fn bracket_step(self, inp: Input, st: ScanDetectorState) -> ScanDetectorState {
        let u = up(self.sign_inverted);
        let here = Some(
            DetectorPoint {
                average: inp.average,
                detector_mv: match inp.latest_reading {
                    Some(r) => r.detector_mv,
                    None => 0,
                },
            },
        );
        if inp.average.below(inp.band_low) {
            ScanDetectorState { mv: moved(st.mv, u * 2), wait: None, ..st }
        } else if inp.band_high.below(inp.average) {
            ScanDetectorState { mv: moved(st.mv, -u * 2), wait: None, ..st }
        } else if inp.average.below(self.target()) {
            ScanDetectorState { below: here, mv: moved(st.mv, u), wait: None, ..st }
        } else {
            ScanDetectorState { above: here, mv: moved(st.mv, -u), wait: None, ..st }
        }
    }

    pub open spec fn judge_detector(self, inp: Input, st: ScanDetectorState) -> (
        SweepView,
        Outcome,
    ) {
        let u = up(self.sign_inverted);
        match st.phase {
            ScanDetectorPhase::Backoff => (
                if inp.average.below(self.target()) {
                    self.go_on_detector(
                        ScanDetectorState { phase: ScanDetectorPhase::Bracket, wait: None, ..st },
                    )
                } else {
                    self.go_on_detector(
                        ScanDetectorState { mv: moved(st.mv, -u), wait: None, ..st },
                    )
                },
                Outcome::Nothing,
            ),
            ScanDetectorPhase::Bracket => {
                let next = self.bracket_step(inp, st);
                if next.below is Some && next.above is Some {
                    (
                        SweepView { step: None, ..self },
                        Outcome::Interpolate {
                            target_mw: self.target_mw(),
                            below: next.below->0,
                            above: next.above->0,
                        },
                    )
                } else {
                    (self.go_on_detector(next), Outcome::Nothing)
                }
            },
        }
    }

    pub open spec fn tick_detector(self, inp: Input, st: ScanDetectorState) -> (
        SweepView,
        Outcome,
    ) {
        let held = StepState::Detector(st);
        match st.wait {
            None => self.hold_or_send(
                inp,
                st.mv,
                held,
                StepState::Detector(
                    ScanDetectorState {
                        wait: Some(detector_wait(st.phase, inp.history_len)),
                        ..st
                    },
                ),
            ),
            Some(w) => if w.is_ready(inp.history_len) {
                self.judge_detector(inp, st)
            } else {
                self.hold_or_send(inp, st.mv, held, held)
            },
        }
    }

    /// A point that has not begun begins with a coarse ramp.
    pub open spec fn entered(self) -> SweepView {
        if self.step is None {
            self.with_level_status(
                LevelStatusView::InProgress(
                    progress_words(
                        SweepOp::ScanPa,
                        pa_words(ScanPaPhase::CoarseRamp),
                        self.freq_mhz(),
                        None,
                    ),
                ),
            )
        } else {
            self
        }
    }

    pub open spec fn current_step(self) -> StepState {
        match self.step {
            Some(s) => s,
            None => StepState::Pa(
                ScanPaState { phase: ScanPaPhase::CoarseRamp, mv: START_MV, wait: None },
            ),
        }
    }

    pub open spec fn poll(self, inp: Input) -> (SweepView, Outcome) {
        if !(self.state is Running) {
            (self, Outcome::Nothing)
        } else if self.level_idx >= self.levels.len() {
            (self.next_frequency(), Outcome::Nothing)
        } else {
            match self.current_step() {
                StepState::Pa(st) => self.entered().tick_pa(inp, st),
                StepState::Detector(st) => self.entered().tick_detector(inp, st),
            }
        }
    }

    /// A bias was sent at `now`.
    pub open spec fn sent(self, step: StepState, now: u64) -> SweepView {
        SweepView { last_send: Some(now), step: Some(step), ..self }
    }
}

pub struct SweepEngine {
    pub levels: Vec<u8>,
    pub frequencies: Vec<u16>,
    pub sign_inverted: bool,
    pub target_mw_by_level: HashMap<u8, u16>,
    /// How often in a second the meter is read during the sweep.
    pub sweep_hz: u32,
    pub state: EngineState,
    pub freq_idx: usize,
    pub level_idx: usize,
    pub step: Option<StepState>,
    pub last_send: Option<u64>,
    pub per_level_status: HashMap<u8, LevelStatus>,
    pub total_steps: usize,
    pub completed_steps: usize,
    pub pending_result: Option<SweepResult>,
}

impl View for SweepEngine {
    type V = SweepView;

    open spec fn view(&self) -> SweepView {
        SweepView {
            levels: self.levels@,
            frequencies: self.frequencies@,
            sign_inverted: self.sign_inverted,
            targets: self.target_mw_by_level@,
            sweep_hz: self.sweep_hz,
            state: self.state,
            freq_idx: self.freq_idx,
            level_idx: self.level_idx,
            step: self.step,
            last_send: self.last_send,
            level_status: status_views(self.per_level_status@),
            total_steps: self.total_steps,
            completed_steps: self.completed_steps,
            pending_result: self.pending_result,
        }
    }
}

fn progress_string(op: SweepOp, phase: &str, freq_mhz: u16, mv: Option<i32>) -> (r: String)
    ensures
        r@ == progress_words(op, phase@, freq_mhz, mv),
{
    let mut s = String::new();
    s.append(op.label());
    s.append(" / ");
    s.append(phase);
    s.append(" @ ");
    push_decimal(&mut s, freq_mhz as u64);
    s.append("MHz");
    match mv {
        Some(mv) => {
            s.append(" mv=");
            push_signed(&mut s, mv);
        },
        None => {},
    }
    assert(s@ =~= progress_words(op, phase@, freq_mhz, mv));
    s
}

fn is_on_scale(mv: i32) -> (r: bool)
    ensures
        r == on_scale(mv),
{
    0 <= mv && mv <= types::VBIAS_MAX_MV
}

impl SweepEngine {
    pub open spec fn wf(&self) -> bool {
        self@.wf()
    }

    pub fn new(
        levels: Vec<u8>,
        frequencies: Vec<u16>,
        sign_inverted: bool,
        target_mw_by_level: HashMap<u8, u16>,
        meter_max_hz: u32,
    ) -> (r: Self)
        requires
            levels@.len() * frequencies@.len() * 2 <= usize::MAX,
        ensures
            r.wf(),
            r@ == SweepView::fresh(
                levels@,
                frequencies@,
                sign_inverted,
                target_mw_by_level@,
                meter_max_hz,
            ),
    {
        let per_level_status = all_pending(&levels);
        proof {
            assert(levels@.len() * frequencies@.len() <= usize::MAX) by (nonlinear_arith)
                requires
                    levels@.len() * frequencies@.len() * 2 <= usize::MAX,
            ;
        }
        let total_steps: usize = levels.len() * frequencies.len() * 2;
        SweepEngine {
            levels,
            frequencies,
            sign_inverted,
            target_mw_by_level,
            sweep_hz: if meter_max_hz < 10 { meter_max_hz } else { 10 },
            state: EngineState::Idle,
            freq_idx: 0,
            level_idx: 0,
            step: None,
            last_send: None,
            per_level_status,
            total_steps,
            completed_steps: 0,
            pending_result: None,
        }
    }

    /// How many of how many steps are done; one of one where there are none.
    pub fn progress(&self) -> (r: (usize, usize))
        ensures
            r == (if self.total_steps == 0 {
                (1usize, 1usize)
            } else {
                (self.completed_steps, self.total_steps)
            }),
    {
        if self.total_steps == 0 {
            return (1, 1);
        }
        (self.completed_steps, self.total_steps)
    }

    /// Begins with the first frequency, once it is confirmed where the meter is set by hand.
    pub fn start(&mut self, requires_manual_frequency: bool)
        requires
            old(self).wf(),
        ensures
            final(self).wf(),
            final(self)@ == old(self)@.start(requires_manual_frequency),
    {
        if self.levels.len() == 0 || self.frequencies.len() == 0 {
            self.state = EngineState::Idle;
            return;
        }
        self.freq_idx = 0;
        self.level_idx = 0;
        self.step = None;
        self.state = if requires_manual_frequency {
            EngineState::AwaitingFreqConfirm { freq_mhz: self.frequencies[0] }
        } else {
            EngineState::Running
        };
    }

    pub fn confirm_frequency(&mut self)
        requires
            old(self).wf(),
        ensures
            final(self).wf(),
            final(self)@ == old(self)@.confirm_frequency(),
    {
        if let EngineState::AwaitingFreqConfirm { .. } = self.state {
            self.state = EngineState::Running;
        }
    }

    pub fn abort(&mut self)
        requires
            old(self).wf(),
        ensures
            final(self).wf(),
            final(self)@ == old(self)@.abort(),
    {
        abort_all(&mut self.per_level_status, &self.levels);
        assert(self@.level_status =~= old(self)@.abort().level_status);
        self.state = EngineState::Idle;
        self.step = None;
    }

    pub fn is_active(&self) -> (r: bool)
        ensures
            r == (self.state != EngineState::Idle),
    {
        match self.state {
            EngineState::Idle => false,
            _ => true,
        }
    }

    fn set_level_status(&mut self, status: LevelStatus)
        requires
            old(self).wf(),
            old(self)@.level_idx < old(self)@.levels.len(),
        ensures
            final(self).wf(),
            final(self)@ == old(self)@.with_level_status(status@),
    {
        let level = self.levels[self.level_idx];
        let ghost before = self.per_level_status@;
        self.per_level_status.insert(level, status);
        assert(status_views(self.per_level_status@) =~= status_views(before).insert(level, status@));
    }

    fn hold_or_send(&mut self, inp: &Input, mv: i32, held: StepState, sent: StepState) -> (r:
        Outcome)
        requires
            old(self).wf(),
            old(self)@.level_idx < old(self)@.levels.len(),
        ensures
            final(self).wf(),
            final(self)@ == old(self)@.hold_or_send(*inp, mv, held, sent).0,
            r == old(self)@.hold_or_send(*inp, mv, held, sent).1,
    {
        let throttled = match self.last_send {
            Some(t) => time_since(t, inp.now) < types::SEND_INTERVAL,
            None => false,
        };
        if throttled {
            self.step = Some(held);
            Outcome::Nothing
        } else {
            self.step = None;
            let mv: u16 = if mv < 0 {
                0
            } else if mv > types::VBIAS_MAX_MV {
                types::VBIAS_MAX_MV as u16
            } else {
                mv as u16
            };
            Outcome::Send { level: self.levels[self.level_idx], mv, step: sent }
        }
    }

    fn finish_scan_pa(&mut self, mv: i32)
        requires
            old(self).wf(),
            old(self)@.level_idx < old(self)@.levels.len(),
        ensures
            final(self).wf(),
            final(self)@ == old(self)@.finish_scan_pa(mv),
    {
        let found: u16 = if mv < 0 {
            0
        } else if mv > types::VBIAS_MAX_MV {
            types::VBIAS_MAX_MV as u16
        } else {
            mv as u16
        };
        self.completed_steps = self.completed_steps.wrapping_add(1);
        self.pending_result = Some(
            SweepResult {
                level: self.levels[self.level_idx],
                freq_idx: self.freq_idx,
                calibration_mv: Some(found),
                detector_mv: None,
            },
        );
        let start: i32 = mv.wrapping_add(-power_up_step(self.sign_inverted) * 5);
        self.step = Some(
            StepState::Detector(
                ScanDetectorState {
                    phase: ScanDetectorPhase::Backoff,
                    mv: if start > 0 { start } else { 0 },
                    wait: None,
                    below: None,
                    above: None,
                },
            ),
        );
    }

    fn finish_scan_detector(&mut self, detector_mv: u16)
        requires
            old(self).wf(),
            old(self)@.level_idx < old(self)@.levels.len(),
        ensures
            final(self).wf(),
            final(self)@ == old(self)@.finish_scan_detector(detector_mv),
    {
        self.completed_steps = self.completed_steps.wrapping_add(1);
        self.pending_result = Some(
            SweepResult {
                level: self.levels[self.level_idx],
                freq_idx: self.freq_idx,
                calibration_mv: None,
                detector_mv: Some(detector_mv),
            },
        );
        self.step = None;
        self.set_level_status(LevelStatus::Done);
        let n: usize = self.levels.len();
        self.level_idx = self.level_idx + 1;
    }

    fn target_mw(&self) -> (r: u16)
        requires
            self.level_idx < self@.levels.len(),
        ensures
            r == self@.target_mw(),
    {
        match self.target_mw_by_level.get(&self.levels[self.level_idx]) {
            Some(mw) => *mw,
            None => 0,
        }
    }

    fn go_on_pa(&mut self, st: ScanPaState)
        requires
            old(self).wf(),
            old(self)@.level_idx < old(self)@.levels.len(),
            old(self)@.freq_idx < old(self)@.frequencies.len(),
        ensures
            final(self).wf(),
            final(self)@ == old(self)@.go_on_pa(st),
    {
        let phase = match st.phase {
            ScanPaPhase::CoarseRamp => "coarse ramp",
            ScanPaPhase::Backoff => "backoff",
            ScanPaPhase::Fine => "fine",
        };
        let text = progress_string(
            SweepOp::ScanPa,
            phase,
            self.frequencies[self.freq_idx],
            Some(st.mv),
        );
        self.set_level_status(LevelStatus::InProgress(text));
        self.step = Some(StepState::Pa(st));
    }

    fn judge_pa(&mut self, inp: &Input, st: ScanPaState)
        requires
            old(self).wf(),
            old(self)@.level_idx < old(self)@.levels.len(),
            old(self)@.freq_idx < old(self)@.frequencies.len(),
        ensures
            final(self).wf(),
            final(self)@ == old(self)@.judge_pa(*inp, st),
    {
        let u: i32 = power_up_step(self.sign_inverted);
        let target = Power::from_mw(self.target_mw());
        match st.phase {
            ScanPaPhase::CoarseRamp => {
                let next: i32 = st.mv.wrapping_add(u * 50);
                if inp.near_target.le(inp.average) {
                    self.go_on_pa(ScanPaState { phase: ScanPaPhase::Backoff, wait: None, ..st });
                } else if !is_on_scale(next) {
                    self.finish_scan_pa(st.mv);
                } else {
                    self.go_on_pa(ScanPaState { mv: next, wait: None, ..st });
                }
            },
            ScanPaPhase::Backoff => {
                if inp.average.lt(target) {
                    self.go_on_pa(ScanPaState { phase: ScanPaPhase::Fine, wait: None, ..st });
                } else {
                    let next: i32 = st.mv.wrapping_add(-u * 5);
                    self.go_on_pa(ScanPaState { mv: next, wait: None, ..st });
                }
            },
            ScanPaPhase::Fine => {
                let next: i32 = st.mv.wrapping_add(u);
                if target.le(inp.average) || !is_on_scale(next) {
                    self.finish_scan_pa(st.mv);
                } else {
                    self.go_on_pa(ScanPaState { mv: next, wait: None, ..st });
                }
            },
        }
    }

    fn tick_pa(&mut self, inp: &Input, st: ScanPaState) -> (r: Outcome)
        requires
            old(self).wf(),
            old(self)@.level_idx < old(self)@.levels.len(),
            old(self)@.freq_idx < old(self)@.frequencies.len(),
        ensures
            final(self).wf(),
            final(self)@ == old(self)@.tick_pa(*inp, st).0,
            r == old(self)@.tick_pa(*inp, st).1,
    {
        let held = StepState::Pa(st);
        match st.wait {
            None => {
                let wait = match st.phase {
                    ScanPaPhase::Backoff => SampleWait::new(inp.history_len, 1, 0),
                    _ => SampleWait::new(inp.history_len, 4, 0),
                };
                self.hold_or_send(
                    inp,
                    st.mv,
                    held,
                    StepState::Pa(ScanPaState { wait: Some(wait), ..st }),
                )
            },
            Some(w) => {
                if !w.ready(inp.history_len) {
                    return self.hold_or_send(inp, st.mv, held, held);
                }
                self.judge_pa(inp, st);
                Outcome::Nothing
            },
        }
    }

    fn go_on_detector(&mut self, st: ScanDetectorState)
        requires
            old(self).wf(),
            old(self)@.level_idx < old(self)@.levels.len(),
            old(self)@.freq_idx < old(self)@.frequencies.len(),
        ensures
            final(self).wf(),
            final(self)@ == old(self)@.go_on_detector(st),
    {
        let phase = match st.phase {
            ScanDetectorPhase::Backoff => "backoff",
            ScanDetectorPhase::Bracket => "bracket",
        };
        let text = progress_string(
            SweepOp::ScanDetector,
            phase,
            self.frequencies[self.freq_idx],
            Some(st.mv),
        );
        self.set_level_status(LevelStatus::InProgress(text));
        self.step = Some(StepState::Detector(st));
    }

    fn bracket_step(&self, inp: &Input, st: ScanDetectorState) -> (r: ScanDetectorState)
        requires
            self.level_idx < self@.levels.len(),
        ensures
            r == self@.bracket_step(*inp, st),
    {
        let u: i32 = power_up_step(self.sign_inverted);
        let target = Power::from_mw(self.target_mw());
        let here = DetectorPoint {
            average: inp.average,
            detector_mv: match inp.latest_reading {
                Some(r) => r.detector_mv,
                None => 0,
            },
        };
        if inp.average.lt(inp.band_low) {
            ScanDetectorState { mv: st.mv.wrapping_add(u * 2), wait: None, ..st }
        } else if inp.band_high.lt(inp.average) {
            ScanDetectorState { mv: st.mv.wrapping_add(-u * 2), wait: None, ..st }
        } else if inp.average.lt(target) {
            ScanDetectorState { below: Some(here), mv: st.mv.wrapping_add(u), wait: None, ..st }
        } else {
            ScanDetectorState { above: Some(here), mv: st.mv.wrapping_add(-u), wait: None, ..st }
        }
    }

    fn judge_detector(&mut self, inp: &Input, st: ScanDetectorState) -> (r: Outcome)
        requires
            old(self).wf(),
            old(self)@.level_idx < old(self)@.levels.len(),
            old(self)@.freq_idx < old(self)@.frequencies.len(),
        ensures
            final(self).wf(),
            final(self)@ == old(self)@.judge_detector(*inp, st).0,
            r == old(self)@.judge_detector(*inp, st).1,
    {
        match st.phase {
            ScanDetectorPhase::Backoff => {
                let target = Power::from_mw(self.target_mw());
                let u: i32 = power_up_step(self.sign_inverted);
                if inp.average.lt(target) {
                    self.go_on_detector(
                        ScanDetectorState { phase: ScanDetectorPhase::Bracket, wait: None, ..st },
                    );
                } else {
                    let next: i32 = st.mv.wrapping_add(-u);
                    self.go_on_detector(ScanDetectorState { mv: next, wait: None, ..st });
                }
                Outcome::Nothing
            },
            ScanDetectorPhase::Bracket => {
                let next = self.bracket_step(inp, st);
                if let (Some(below), Some(above)) = (next.below, next.above) {
                    self.step = None;
                    return Outcome::Interpolate { target_mw: self.target_mw(), below, above };
                }
                self.go_on_detector(next);
                Outcome::Nothing
            },
        }
    }

    fn tick_detector(&mut self, inp: &Input, st: ScanDetectorState) -> (r: Outcome)
        requires
            old(self).wf(),
            old(self)@.level_idx < old(self)@.levels.len(),
            old(self)@.freq_idx < old(self)@.frequencies.len(),
        ensures
            final(self).wf(),
            final(self)@ == old(self)@.tick_detector(*inp, st).0,
            r == old(self)@.tick_detector(*inp, st).1,
    {
        let held = StepState::Detector(st);
        match st.wait {
            None => {
                let wait = match st.phase {
                    ScanDetectorPhase::Backoff => SampleWait::new(inp.history_len, 1, 0),
                    ScanDetectorPhase::Bracket => SampleWait::new(inp.history_len, 20, 10),
                };
                self.hold_or_send(
                    inp,
                    st.mv,
                    held,
                    StepState::Detector(ScanDetectorState { wait: Some(wait), ..st }),
                )
            },
            Some(w) => {
                if !w.ready(inp.history_len) {
                    return self.hold_or_send(inp, st.mv, held, held);
                }
                self.judge_detector(inp, st)
            },
        }
    }

    /// One turn of the sweep. [`Outcome::frame`] is what is to be sent, if anything; where
    /// that is done, [`SweepEngine::sent`] follows. Where an interpolation is wanted,
    /// [`SweepEngine::interpolated`] does.
    pub fn poll(&mut self, inp: &Input) -> (r: Outcome)
        requires
            old(self).wf(),
        ensures
            final(self).wf(),
            final(self)@ == old(self)@.poll(*inp).0,
            r == old(self)@.poll(*inp).1,
            r is Interpolate ==> final(self)@.level_idx < old(self)@.levels.len(),
            final(self)@.levels == old(self)@.levels,
    {
        match self.state {
            EngineState::Running => {},
            _ => {
                return Outcome::Nothing;
            },
        }
        if self.level_idx >= self.levels.len() {
            let n: usize = self.frequencies.len();
            self.freq_idx = self.freq_idx + 1;
            self.level_idx = 0;
            self.step = None;
            self.state = if self.freq_idx >= n {
                EngineState::Idle
            } else {
                EngineState::AwaitingFreqConfirm { freq_mhz: self.frequencies[self.freq_idx] }
            };
            return Outcome::Nothing;
        }
        let step = match self.step {
            Some(s) => s,
            None => {
                let text = progress_string(
                    SweepOp::ScanPa,
                    "coarse ramp",
                    self.frequencies[self.freq_idx],
                    None,
                );
                self.set_level_status(LevelStatus::InProgress(text));
                StepState::Pa(
                    ScanPaState { phase: ScanPaPhase::CoarseRamp, mv: START_MV, wait: None },
                )
            },
        };
        match step {
            StepState::Pa(st) => self.tick_pa(inp, st),
            StepState::Detector(st) => self.tick_detector(inp, st),
        }
    }

    /// The bias of the last poll went out at `now`.
    pub fn sent(&mut self, step: StepState, now: u64)
        requires
            old(self).wf(),
        ensures
            final(self).wf(),
            final(self)@ == old(self)@.sent(step, now),
    {
        self.last_send = Some(now);
        self.step = Some(step);
    }

    /// The detector voltage that the last poll asked for.
    pub fn interpolated(&mut self, detector_mv: u16)
        requires
            old(self).wf(),
            old(self)@.level_idx < old(self)@.levels.len(),
        ensures
            final(self).wf(),
            final(self)@ == old(self)@.finish_scan_detector(detector_mv),
    {
        self.finish_scan_detector(detector_mv);
    }
}

/// A detector voltage ends the current level, and the levels of a frequency end it: the
/// sweep goes on to the next frequency, or is over.
pub proof fn law_frequencies_come_one_after_the_other(e: SweepView, inp: Input, detector_mv: u16)
    requires
        e.wf(),
        e.state is Running,
        e.levels.len() <= usize::MAX,
        e.frequencies.len() <= usize::MAX,
    ensures
        e.level_idx < e.levels.len() ==> e.finish_scan_detector(detector_mv).level_idx
            == e.level_idx + 1 && e.finish_scan_detector(detector_mv).freq_idx == e.freq_idx,
        e.level_idx == e.levels.len() ==> {
            let (next, outcome) = e.poll(inp);
            &&& outcome is Nothing
            &&& next.level_idx == 0
            &&& next.freq_idx == e.freq_idx + 1
            &&& next.state is Idle <==> e.freq_idx + 1 == e.frequencies.len()
        },
{
}

/// Every bias that is sent is within the range of the DAC, and none is sent too soon
/// after the last. It travels in a calibration request for the current level, and nothing
/// else is sent.
pub proof fn law_biases_stay_within_the_range(
    e: SweepView,
    inp: Input,
    session_active: bool,
    boost_mode: u8,
)
    ensures
        e.poll(inp).1 matches Outcome::Send { level, mv, .. } ==> level == e.level() && mv
            <= types::VBIAS_MAX_MV && !e.throttled(inp.now),
        e.poll(inp).1.bytes(session_active, boost_mode) matches Some(bytes) ==> exists|mv: u16|
            mv <= types::VBIAS_MAX_MV && bytes == command_v2(
                function::SET_PACALIBRATION,
                #[trigger] pa_calibration_request(e.level(), Some(mv), session_active, boost_mode),
            ),
{
}

/// Once the bias of a point is found, the search for the detector begins five millivolts
/// towards less power, whichever sign the DAC has, but not below zero.
pub proof fn law_the_detector_search_begins_with_less_power(e: SweepView, mv: i32)
    requires
        0 <= mv <= types::VBIAS_MAX_MV,
    ensures
        e.finish_scan_pa(mv).step matches Some(StepState::Detector(st)) && st.phase is Backoff
            && st.mv == (if e.sign_inverted {
            mv + 5
        } else if mv > 5 {
            mv - 5
        } else {
            0
        }),
{
}

/// The samples that a step waits for.
pub open spec fn wait_of(step: StepState) -> Option<SampleWait> {
    match step {
        StepState::Pa(st) => st.wait,
        StepState::Detector(st) => st.wait,
    }
}

/// A bias that is sent is judged by samples that come in after it was sent: until as many
/// as are wanted have come, the step does not change, and at most the bias is sent again.
pub proof fn law_a_bias_is_judged_by_new_samples(e: SweepView, inp: Input, now: u64, later: Input)
    requires
        e.state is Running,
        e.level_idx < e.levels.len(),
        wait_of(e.current_step()) is None,
    ensures
        e.poll(inp).1 matches Outcome::Send { step, mv, .. } ==> {
            let sent = e.poll(inp).0.sent(step, now);
            let (after, outcome) = sent.poll(later);
            &&& wait_of(step) matches Some(w) && w.start_seq == inp.history_len && w.needed > 0 && (
            !w.is_ready(later.history_len) ==> {
                ||| outcome is Nothing && after.step == Some(step)
                ||| outcome == Outcome::Send { level: e.level(), mv, step }
            })
        },
{
}

/// How far the bias `to` is from the bias `from` towards more power.
pub open spec fn gained(inverted: bool, from: i32, to: i32) -> int {
    if inverted {
        from - to
    } else {
        to - from
    }
}

/// The sweep is at a level that it sweeps for this power.
pub open spec fn aims_at(e: SweepView, mw: u16) -> bool {
    e.level_idx < e.levels.len() && e.targets.contains_pair(e.levels[e.level_idx as int], mw)
}

/// A bias far from where a machine integer ends.
pub open spec fn is_usual(mv: i32) -> bool {
    -10_000 <= mv <= 10_000
}

/// What a report on a bias says.
pub open spec fn reports_bias(e: SweepView, r: SweepView, mv: i32) -> bool {
    &&& r.pending_result matches Some(found) && found.level == e.levels[e.level_idx as int]
        && found.freq_idx == e.freq_idx && found.detector_mv is None && (
    found.calibration_mv matches Some(v) && (0 <= mv <= 3300 ==> v == mv) && (mv < 0 ==> v == 0)
        && (mv > 3300 ==> v == 3300))
    &&& r.completed_steps == e.completed_steps.wrapping_add(1)
    &&& r.level_idx == e.level_idx && r.freq_idx == e.freq_idx
    &&& r.step matches Some(StepState::Detector(st)) && st.phase is Backoff && st.wait is None
        && st.below is None && st.above is None
}

/// A coarse ramp raises the power by fifty millivolts at a time until the power is near the
/// target; it then backs off from the bias that it has reached. Where the range of the DAC
/// ends before, the bias that it has is reported.
pub proof fn law_a_coarse_ramp_raises_the_power(e: SweepView, inp: Input, st: ScanPaState)
    requires
        e.level_idx < e.levels.len(),
        st.phase is CoarseRamp,
        is_usual(st.mv),
    ensures
        ({
            let r = e.judge_pa(inp, st);
            let next = if e.sign_inverted {
                st.mv - 50
            } else {
                st.mv + 50
            };
            if inp.near_target.at_most(inp.average) {
                &&& r.step == Some(
                    StepState::Pa(ScanPaState { phase: ScanPaPhase::Backoff, mv: st.mv, wait: None }),
                )
                &&& r.pending_result == e.pending_result
            } else if 0 <= next <= 3300 {
                &&& r.step matches Some(StepState::Pa(n)) && n.phase is CoarseRamp && n.mv == next
                    && n.wait is None
                &&& r.pending_result == e.pending_result
            } else {
                reports_bias(e, r, st.mv)
            }
        }),
{
}

/// Backing off lowers the power by five millivolts at a time until it is below the target;
/// the fine search begins at the bias where it is.
pub proof fn law_backing_off_lowers_the_power(
    e: SweepView,
    inp: Input,
    st: ScanPaState,
    mw: u16,
)
    requires
        aims_at(e, mw),
        st.phase is Backoff,
        is_usual(st.mv),
    ensures
        ({
            let r = e.judge_pa(inp, st);
            let low = inp.average.below(Power::of_mw(mw));
            &&& r.step matches Some(StepState::Pa(n)) && n.wait is None && gained(
                e.sign_inverted,
                st.mv,
                n.mv,
            ) == (if low {
                0int
            } else {
                -5
            }) && n.phase == (if low {
                ScanPaPhase::Fine
            } else {
                ScanPaPhase::Backoff
            })
            &&& r.pending_result == e.pending_result
            &&& r.level_idx == e.level_idx && r.freq_idx == e.freq_idx
        }),
{
}

/// A fine search raises the power by single millivolts, and reports the bias at which the
/// target is reached or the range of the DAC ends.
pub proof fn law_a_fine_search_ends_at_the_target(
    e: SweepView,
    inp: Input,
    st: ScanPaState,
    mw: u16,
)
    requires
        aims_at(e, mw),
        st.phase is Fine,
        is_usual(st.mv),
    ensures
        ({
            let r = e.judge_pa(inp, st);
            let next = if e.sign_inverted {
                st.mv - 1
            } else {
                st.mv + 1
            };
            if Power::of_mw(mw).at_most(inp.average) || !(0 <= next <= 3300) {
                reports_bias(e, r, st.mv)
            } else {
                &&& r.step matches Some(StepState::Pa(n)) && n.phase is Fine && n.mv == next
                    && n.wait is None
                &&& r.pending_result == e.pending_result
                &&& r.level_idx == e.level_idx && r.freq_idx == e.freq_idx
            }
        }),
{
}

/// A search for the detector lowers the power by single millivolts until it is below the
/// target, and brackets the target from the bias where it is.
pub proof fn law_a_detector_search_backs_off(
    e: SweepView,
    inp: Input,
    st: ScanDetectorState,
    mw: u16,
)
    requires
        aims_at(e, mw),
        st.phase is Backoff,
        is_usual(st.mv),
    ensures
        ({
            let (r, outcome) = e.judge_detector(inp, st);
            let low = inp.average.below(Power::of_mw(mw));
            &&& outcome is Nothing
            &&& r.step matches Some(StepState::Detector(n)) && n == (ScanDetectorState {
                phase: if low {
                    ScanDetectorPhase::Bracket
                } else {
                    ScanDetectorPhase::Backoff
                },
                mv: n.mv,
                wait: None,
                ..st
            }) && gained(e.sign_inverted, st.mv, n.mv) == (if low {
                0int
            } else {
                -1
            })
            &&& r.pending_result == e.pending_result
            &&& r.level_idx == e.level_idx && r.freq_idx == e.freq_idx
        }),
{
}

/// What a search for the detector captures within the tolerance is what was measured: the
/// average, and the detector voltage of the reading at hand. It goes towards the target by
/// two millivolts from outside the tolerance, and across it by one from inside.
pub proof fn law_captured_points_were_measured(
    e: SweepView,
    inp: Input,
    st: ScanDetectorState,
    mw: u16,
)
    requires
        aims_at(e, mw),
        is_usual(st.mv),
    ensures
        ({
            let next = e.bracket_step(inp, st);
            let weak = inp.average.below(inp.band_low);
            let strong = !weak && inp.band_high.below(inp.average);
            let low = inp.average.below(Power::of_mw(mw));
            let read: u16 = match inp.latest_reading {
                Some(reading) => reading.detector_mv,
                None => 0,
            };
            let here = Some(DetectorPoint { average: inp.average, detector_mv: read });
            &&& next.below == if !weak && !strong && low {
                here
            } else {
                st.below
            }
            &&& next.above == if !weak && !strong && !low {
                here
            } else {
                st.above
            }
            &&& gained(e.sign_inverted, st.mv, next.mv) == if weak {
                2int
            } else if strong {
                -2
            } else if low {
                1
            } else {
                -1
            }
            &&& next.wait is None && next.phase == st.phase
        }),
{
}

/// The points that an interpolation is given are the two that were captured, with this
/// measurement or before it; none is wanted before both are there, and until then the search
/// goes on.
pub proof fn law_an_interpolation_is_between_captured_points(
    e: SweepView,
    inp: Input,
    st: ScanDetectorState,
    mw: u16,
)
    requires
        aims_at(e, mw),
        st.phase is Bracket,
    ensures
        ({
            let (r, outcome) = e.judge_detector(inp, st);
            let next = e.bracket_step(inp, st);
            &&& match (next.below, next.above) {
                (Some(below), Some(above)) => outcome == (Outcome::Interpolate {
                    target_mw: mw,
                    below,
                    above,
                }),
                _ => outcome is Nothing && r.step == Some(StepState::Detector(next)),
            }
            &&& r.pending_result == e.pending_result
            &&& r.level_idx == e.level_idx && r.freq_idx == e.freq_idx
        }),
{
}

/// A detector voltage is reported for its point, and the level is done.
pub proof fn law_a_detector_voltage_ends_its_level(e: SweepView, detector_mv: u16)
    requires
        e.level_idx < e.levels.len() <= usize::MAX,
    ensures
        ({
            let r = e.finish_scan_detector(detector_mv);
            let level = e.levels[e.level_idx as int];
            &&& r.pending_result == Some(
                SweepResult {
                    level,
                    freq_idx: e.freq_idx,
                    calibration_mv: None,
                    detector_mv: Some(detector_mv),
                },
            )
            &&& r.level_status == e.level_status.insert(level, LevelStatusView::Done)
            &&& r.completed_steps == e.completed_steps.wrapping_add(1)
            &&& r.level_idx == e.level_idx + 1 && r.freq_idx == e.freq_idx
            &&& r.step is None
            &&& r.state == e.state
        }),
{
}

/// A point that has not begun begins with a coarse ramp at 3200 millivolts.
pub proof fn law_a_point_begins_with_a_ramp(e: SweepView, inp: Input)
    requires
        e.state is Running,
        e.level_idx < e.levels.len(),
        e.step is None,
        !e.throttled(inp.now),
    ensures
        e.poll(inp).1 == (Outcome::Send {
            level: e.levels[e.level_idx as int],
            mv: 3200,
            step: StepState::Pa(
                ScanPaState {
                    phase: ScanPaPhase::CoarseRamp,
                    mv: 3200,
                    wait: Some(
                        SampleWait { start_seq: inp.history_len, needed: 4, skip_first: 0 },
                    ),
                },
            ),
        }),
{
}

/// A bias is sent as it is, within the range of the DAC, and not too soon after the last. A
/// step waits then for as many samples as it needs: a ramp and a fine search for four,
/// backing off for one, bracketing the target for twenty, of which the newest ten count.
pub proof fn law_a_step_waits_for_its_samples(e: SweepView, inp: Input, step: StepState)
    requires
        e.state is Running,
        e.level_idx < e.levels.len(),
        e.step == Some(step),
        wait_of(step) is None,
    ensures
        ({
            let (r, outcome) = e.poll(inp);
            let mv = match step {
                StepState::Pa(st) => st.mv,
                StepState::Detector(st) => st.mv,
            };
            &&& e.throttled(inp.now) ==> outcome is Nothing && r.step == Some(step)
            &&& !e.throttled(inp.now) ==> match outcome {
                Outcome::Send { level, mv: sent, step: next } => {
                    &&& level == e.levels[e.level_idx as int]
                    &&& 0 <= mv <= 3300 ==> sent == mv
                    &&& mv < 0 ==> sent == 0
                    &&& mv > 3300 ==> sent == 3300
                    &&& match (step, next) {
                        (StepState::Pa(a), StepState::Pa(b)) => b == (ScanPaState {
                            wait: Some(
                                SampleWait {
                                    start_seq: inp.history_len,
                                    needed: if a.phase is Backoff {
                                        1
                                    } else {
                                        4
                                    },
                                    skip_first: 0,
                                },
                            ),
                            ..a
                        }),
                        (StepState::Detector(a), StepState::Detector(b)) => b
                            == (ScanDetectorState {
                            wait: Some(
                                SampleWait {
                                    start_seq: inp.history_len,
                                    needed: if a.phase is Backoff {
                                        1
                                    } else {
                                        20
                                    },
                                    skip_first: if a.phase is Backoff {
                                        0
                                    } else {
                                        10
                                    },
                                },
                            ),
                            ..a
                        }),
                        _ => false,
                    }
                },
                _ => false,
            }
        }),
{
}

/// A turn with the samples that a step waited for judges them, once.
pub proof fn law_a_turn_judges_what_was_waited_for(e: SweepView, inp: Input, step: StepState)
    requires
        e.state is Running,
        e.level_idx < e.levels.len(),
        e.step == Some(step),
        wait_of(step) matches Some(w) && inp.history_len >= w.start_seq + w.needed,
    ensures
        e.poll(inp) == (match step {
            StepState::Pa(st) => (e.judge_pa(inp, st), Outcome::Nothing),
            StepState::Detector(st) => e.judge_detector(inp, st),
        }),
{
}

/// Two biases are sent with a tenth of a second between them.
pub proof fn law_biases_have_time_between_them(e: SweepView, last: u64, now: u64)
    requires
        e.last_send == Some(last),
        last <= now,
    ensures
        e.throttled(now) <==> now - last < 100_000_000,
        !(SweepView { last_send: None, ..e }).throttled(now),
{
}

/// A sweep starts at its first point, after the user was asked where the meter has to be set
/// by hand; a confirmed frequency lets it run. Without levels or frequencies nothing starts.
pub proof fn law_a_sweep_starts_at_its_first_point(e: SweepView, by_hand: bool)
    ensures
        e.levels.len() > 0 && e.frequencies.len() > 0 ==> {
            let r = e.start(by_hand);
            &&& r.level_idx == 0 && r.freq_idx == 0 && r.step is None
            &&& r.state == if by_hand {
                EngineState::AwaitingFreqConfirm { freq_mhz: e.frequencies[0] }
            } else {
                EngineState::Running
            }
            &&& r.confirm_frequency().state is Running
            &&& r.confirm_frequency() == (SweepView { state: EngineState::Running, ..r })
        },
        e.levels.len() == 0 || e.frequencies.len() == 0 ==> e.start(by_hand).state is Idle,
        e.state is Idle ==> e.confirm_frequency() == e,
{
}

/// After an abort every level that was done is done, and every other is aborted.
pub proof fn law_an_abort_keeps_what_is_done(e: SweepView, level: u8)
    requires
        e.level_status.contains_key(level),
    ensures
        ({
            let r = e.abort();
            &&& r.level_status.contains_key(level)
            &&& e.level_status[level] is Done <==> r.level_status[level] is Done
            &&& r.level_status[level] is Done || r.level_status[level] is Aborted
            &&& r.state is Idle && r.step is None
            &&& r.level_idx == e.level_idx && r.freq_idx == e.freq_idx
            &&& r.completed_steps == e.completed_steps && r.pending_result == e.pending_result
        }),
{
}

/// A sweep that was made and not started is idle and has everything to do.
pub proof fn law_a_new_sweep_has_all_to_do(
    levels: Seq<u8>,
    frequencies: Seq<u16>,
    inverted: bool,
    targets: Map<u8, u16>,
    hz: u32,
    level: u8,
)
    requires
        levels.len() * frequencies.len() * 2 <= usize::MAX,
    ensures
        ({
            let e = SweepView::fresh(levels, frequencies, inverted, targets, hz);
            &&& e.state is Idle && e.step is None && e.pending_result is None
            &&& e.levels == levels && e.frequencies == frequencies && e.targets == targets
            &&& e.sign_inverted == inverted
            &&& e.total_steps == 2 * (levels.len() * frequencies.len())
            &&& e.completed_steps == 0
            &&& e.sweep_hz <= 10 && e.sweep_hz <= hz && (e.sweep_hz == 10 || e.sweep_hz == hz)
            &&& levels.contains(level) ==> e.level_status[level] is Pending
            &&& e.level_status.contains_key(level) ==> levels.contains(level)
        }),
{
}

/// When the last level of a frequency is done, the next frequency is asked for.
pub proof fn law_the_next_frequency_is_asked_for(e: SweepView, inp: Input)
    requires
        e.wf(),
        e.state is Running,
        e.level_idx == e.levels.len(),
        e.freq_idx + 1 < e.frequencies.len() <= usize::MAX,
    ensures
        e.poll(inp).0.state == (EngineState::AwaitingFreqConfirm {
            freq_mhz: e.frequencies[e.freq_idx + 1],
        }),
        e.poll(inp).0.step is None,
{
}

/// A level that the table gives no power aims at none.
pub proof fn law_a_level_without_a_power_aims_at_none(e: SweepView)
    requires
        e.level_idx < e.levels.len(),
        !e.targets.contains_key(e.levels[e.level_idx as int]),
    ensures
        e.target_mw() == 0,
        e.target() == Power::of_mw(0),
{
}

/// A frequency that is confirmed lets the sweep go on as it is; nothing else does.
pub proof fn law_a_confirmed_frequency_goes_on(e: SweepView)
    ensures
        e.state is AwaitingFreqConfirm ==> e.confirm_frequency() == (SweepView {
            state: EngineState::Running,
            ..e
        }),
        !(e.state is AwaitingFreqConfirm) ==> e.confirm_frequency() == e,
{
}

/// A scan says what it does, at which frequency, and with which bias.
pub proof fn law_a_scan_says_where_it_is(e: SweepView, st: ScanPaState, sd: ScanDetectorState)
    requires
        e.level_idx < e.levels.len(),
    ensures
        ({
            let level = e.levels[e.level_idx as int];
            let (a, b) = (e.go_on_pa(st), e.go_on_detector(sd));
            let at = " @ "@ + decimal(e.frequencies[e.freq_idx as int] as nat) + "MHz mv="@;
            let pa = match st.phase {
                ScanPaPhase::CoarseRamp => "coarse ramp"@,
                ScanPaPhase::Backoff => "backoff"@,
                ScanPaPhase::Fine => "fine"@,
            };
            let detector = if sd.phase is Backoff {
                "backoff"@
            } else {
                "bracket"@
            };
            &&& a == (SweepView {
                step: Some(StepState::Pa(st)),
                level_status: e.level_status.insert(
                    level,
                    LevelStatusView::InProgress(
                        "ScanPa / "@ + pa + at + signed_decimal(st.mv as int),
                    ),
                ),
                ..e
            })
            &&& b == (SweepView {
                step: Some(StepState::Detector(sd)),
                level_status: e.level_status.insert(
                    level,
                    LevelStatusView::InProgress(
                        "ScanDetector / "@ + detector + at + signed_decimal(sd.mv as int),
                    ),
                ),
                ..e
            })
        }),
{
    reveal_strlit("ScanPa");
    reveal_strlit(" / ");
    reveal_strlit("ScanPa / ");
    reveal_strlit("ScanDetector");
    reveal_strlit("ScanDetector / ");
    reveal_strlit("MHz");
    reveal_strlit(" mv=");
    reveal_strlit("MHz mv=");
    assert("ScanPa"@ + " / "@ =~= "ScanPa / "@);
    assert("ScanDetector"@ + " / "@ =~= "ScanDetector / "@);
    assert("MHz"@ + " mv="@ =~= "MHz mv="@);
    let f = decimal(e.frequencies[e.freq_idx as int] as nat);
    let at = " @ "@ + f + "MHz mv="@;
    let (p, q) = (pa_words(st.phase), detector_words(sd.phase));
    let (v, w) = (signed_decimal(st.mv as int), signed_decimal(sd.mv as int));
    assert("ScanPa"@ + " / "@ + p + " @ "@ + f + "MHz"@ + " mv="@ + v =~= "ScanPa / "@ + p + at
        + v);
    assert("ScanDetector"@ + " / "@ + q + " @ "@ + f + "MHz"@ + " mv="@ + w =~= "ScanDetector / "@
        + q + at + w);
}

} // verus!

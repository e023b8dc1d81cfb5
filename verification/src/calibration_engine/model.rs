//! What each event does to a sweep.

use vstd::prelude::*;

use crate::calibration_engine::cells::CellStatus;
use crate::calibration_engine::types::{
    AfterSend,
    AutomaticStep,
    BoostMode,
    ConnectionLossReason,
    CurrentStep,
    DetectorPoint,
    EngineState,
    LevelStatusView,
    Message,
    PendingSend,
    PollInput,
    PollOutcome,
    ResumeMode,
    RollingAverage,
    SampleRequest,
    SampleWait,
    ScanDetectorPhase,
    ScanDetectorState,
    ScanPaOutcome,
    ScanPaPhase,
    ScanPaState,
    SweepOp,
    SweepResult,
};
use crate::calibration_engine::types::{
    BOOST_ENABLE_SETTLE_DELAY,
    COARSE_RAMP_START_MARGIN_MV,
    COARSE_RAMP_STEP_MV,
    FINE_SETTLE_DELAY,
    HEARTBEAT_BACKOFF_MV,
    HEARTBEAT_TIMEOUT,
    PA_FAILURE_GRACE_DURATION,
    PINNED_LIMIT,
    SEND_INTERVAL,
    SETTLE_BELOW_TARGET_TIMEOUT,
    VBIAS_MAX_MV,
};
use crate::clock::{after, elapsed};
use crate::msp::PaCalibrationReading;
use crate::power::Power;
use crate::power_meter::{nearest, CapabilityView};
use crate::text::{decimal, signed_decimal};

verus! {

/// The direction of the bias in which the power grows.
pub open spec fn up(sign_inverted: bool) -> int {
    if sign_inverted {
        -1
    } else {
        1
    }
}

pub open spec fn clamped(v: int, lo: int, hi: int) -> int {
    if v < lo {
        lo
    } else if v > hi {
        hi
    } else {
        v
    }
}

/// Where a coarse ramp begins: at the end of the range with the least power.
pub open spec fn ramp_start(sign_inverted: bool, lo: int, hi: int) -> int {
    if sign_inverted {
        if hi - COARSE_RAMP_START_MARGIN_MV > lo {
            hi - COARSE_RAMP_START_MARGIN_MV
        } else {
            lo
        }
    } else {
        if lo + COARSE_RAMP_START_MARGIN_MV < hi {
            lo + COARSE_RAMP_START_MARGIN_MV
        } else {
            hi
        }
    }
}

/// The state in which a sweep goes on at a point.
pub open spec fn resumed(resume: ResumeMode) -> EngineState {
    match resume {
        ResumeMode::Automatic => EngineState::Automatic(AutomaticStep::EnteringPoint),
        ResumeMode::Manual => EngineState::Manual,
    }
}

/// A status that is set on a cell stays out where the cell hit a limit.
pub open spec fn with_cell(
    cells: Map<(u8, usize), CellStatus>,
    key: (u8, usize),
    status: CellStatus,
) -> Map<(u8, usize), CellStatus> {
    if cells.contains_key(key) && cells[key] == CellStatus::LimitHit && status
        != CellStatus::LimitHit {
        cells
    } else {
        cells.insert(key, status)
    }
}

pub open spec fn pa_phase_text(phase: ScanPaPhase) -> Seq<char> {
    match phase {
        ScanPaPhase::Settle => "settling"@,
        ScanPaPhase::CoarseRamp => "coarse ramp"@,
        ScanPaPhase::Fine => "fine"@,
    }
}

pub open spec fn detector_phase_text(phase: ScanDetectorPhase) -> Seq<char> {
    match phase {
        ScanDetectorPhase::Backoff => "backoff"@,
        ScanDetectorPhase::Bracket => "bracket"@,
    }
}

/// What a scan says of itself.
pub open spec fn progress_text(
    op: SweepOp,
    phase: Seq<char>,
    freq_mhz: u16,
    vbias_mv: Option<i32>,
) -> Seq<char> {
    let at = op.spec_label() + " / "@ + phase + " @ "@ + decimal(freq_mhz as nat) + "MHz"@;
    match vbias_mv {
        Some(mv) => at + " vbias_mv="@ + signed_decimal(mv as int),
        None => at,
    }
}

pub open spec fn in_range(v: i32) -> bool {
    0 <= v <= VBIAS_MAX_MV
}

pub open spec fn in_range_if_any(v: Option<i32>) -> bool {
    v matches Some(mv) ==> in_range(mv)
}

pub open spec fn wait_ok(w: Option<SampleWait>) -> bool {
    w matches Some(w) ==> w.skip_first <= w.needed
}

pub open spec fn scan_pa_ok(st: ScanPaState) -> bool {
    &&& in_range(st.vbias_mv)
    &&& 1 <= st.coarse_step_mv <= COARSE_RAMP_STEP_MV
    &&& in_range_if_any(st.last_below_target_mv)
    &&& in_range_if_any(st.fine_bound_mv)
    &&& wait_ok(st.wait)
}

pub open spec fn scan_detector_ok(st: ScanDetectorState) -> bool {
    &&& in_range(st.vbias_mv)
    &&& st.pinned_count < PINNED_LIMIT
    &&& wait_ok(st.wait)
}

pub open spec fn step_ok(step: AutomaticStep) -> bool {
    match step {
        AutomaticStep::EnteringPoint => true,
        AutomaticStep::ScanPa(st) => scan_pa_ok(st),
        AutomaticStep::ScanDetector(st) => scan_detector_ok(st),
    }
}

pub open spec fn state_ok(state: EngineState) -> bool {
    match state {
        EngineState::Automatic(step) => step_ok(step),
        EngineState::ConnectionLost { vbias_mv_at_loss, .. } => in_range(vbias_mv_at_loss),
        _ => true,
    }
}

/// What is parked low is within the range of the DAC.
pub open spec fn send_ok(send: PendingSend) -> bool {
    send matches PendingSend::DacLow { vbias_mv, .. } ==> vbias_mv <= VBIAS_MAX_MV
}

/// A sweep.
#[verifier::ext_equal]
pub struct EngineView {
    pub levels: Seq<u8>,
    pub frequencies: Seq<u16>,
    pub sign_inverted: bool,
    pub targets: Map<u8, u16>,
    pub sweep_hz: u32,
    pub state: EngineState,
    pub freq_idx: usize,
    pub level_idx: usize,
    pub last_send: Option<u64>,
    pub level_status: Map<u8, LevelStatusView>,
    pub cal_cells: Map<(u8, usize), CellStatus>,
    pub det_cells: Map<(u8, usize), CellStatus>,
    pub total_steps: usize,
    pub completed_steps: usize,
    pub pending_result: Option<SweepResult>,
    pub capability: CapabilityView,
    pub last_prompted_band: Option<u32>,
    pub pending_frequency_push: Option<u16>,
    pub pending_meter_frequency: Option<u32>,
    pub hard_limits: Map<u8, i32>,
    pub pending_sends: Seq<PendingSend>,
    pub unresponsive_since: Option<u64>,
    pub manual_dac_mv: i32,
    pub manual_send_pending: bool,
    pub session_active: bool,
    pub boost_mode: BoostMode,
    pub last_boost_on: Option<bool>,
    pub boost_settle_until: Option<u64>,
    pub pa_enable_settle_pending: bool,
}

impl EngineView {
    pub open spec fn wf(self) -> bool {
        &&& self.level_idx < self.levels.len() || (self.levels.len() == 0 && self.level_idx == 0)
        &&& self.freq_idx < self.frequencies.len() || (self.frequencies.len() == 0 && self.freq_idx
            == 0)
        &&& self.state != EngineState::Idle ==> self.levels.len() > 0 && self.frequencies.len() > 0
        &&& state_ok(self.state)
        &&& in_range(self.manual_dac_mv)
        &&& forall|l: u8|
            self.hard_limits.contains_key(l) ==> in_range(#[trigger] self.hard_limits[l])
        &&& forall|l: u8| #[trigger]
            self.level_status.contains_key(l) <==> self.levels.contains(l)
        &&& forall|i: int|
            0 <= i < self.pending_sends.len() ==> send_ok(#[trigger] self.pending_sends[i])
    }

    /// A sweep that has not started.
    pub open spec fn fresh(
        levels: Seq<u8>,
        frequencies: Seq<u16>,
        sign_inverted: bool,
        targets: Map<u8, u16>,
        meter_max_hz: u32,
    ) -> EngineView {
        EngineView {
            levels,
            frequencies,
            sign_inverted,
            targets,
            sweep_hz: if meter_max_hz < 10 { meter_max_hz } else { 10 },
            state: EngineState::Idle,
            freq_idx: 0,
            level_idx: 0,
            last_send: None,
            level_status: Map::new(|l: u8| levels.contains(l), |l: u8| LevelStatusView::Pending),
            cal_cells: Map::empty(),
            det_cells: Map::empty(),
            total_steps: (levels.len() * frequencies.len() * 2) as usize,
            completed_steps: 0,
            pending_result: None,
            capability: CapabilityView::Manual { min_mhz: 0, max_mhz: 0 },
            last_prompted_band: None,
            pending_frequency_push: None,
            pending_meter_frequency: None,
            hard_limits: Map::empty(),
            pending_sends: seq![],
            unresponsive_since: None,
            manual_dac_mv: 0,
            manual_send_pending: false,
            session_active: false,
            boost_mode: BoostMode::Auto,
            last_boost_on: None,
            boost_settle_until: None,
            pa_enable_settle_pending: false,
        }
    }

    pub open spec fn level(self) -> u8 {
        self.levels[self.level_idx as int]
    }

    pub open spec fn freq_mhz(self) -> u16 {
        self.frequencies[self.freq_idx as int]
    }

    /// The current level and the place of the current frequency.
    pub open spec fn point(self) -> (u8, usize) {
        (self.level(), self.freq_idx)
    }

    pub open spec fn target_mw(self) -> u16 {
        if self.targets.contains_key(self.level()) {
            self.targets[self.level()]
        } else {
            0
        }
    }

    /// The least bias that is allowed at a level.
    pub open spec fn bound_lo(self, level: u8) -> int {
        if self.hard_limits.contains_key(level) && self.sign_inverted {
            if self.hard_limits[level] > 0 {
                self.hard_limits[level] as int
            } else {
                0
            }
        } else {
            0
        }
    }

    /// The greatest bias that is allowed at a level.
    pub open spec fn bound_hi(self, level: u8) -> int {
        if self.hard_limits.contains_key(level) && !self.sign_inverted {
            if self.hard_limits[level] < VBIAS_MAX_MV {
                self.hard_limits[level] as int
            } else {
                VBIAS_MAX_MV as int
            }
        } else {
            VBIAS_MAX_MV as int
        }
    }

    pub open spec fn allowed(self, level: u8, mv: int) -> bool {
        self.bound_lo(level) <= mv <= self.bound_hi(level)
    }

    pub open spec fn in_bounds(self, level: u8, mv: int) -> int {
        clamped(mv, self.bound_lo(level), self.bound_hi(level))
    }

    /// Pit mode at the current point.
    pub open spec fn safe_state(self) -> PendingSend {
        PendingSend::SafeState {
            freq_mhz: if self.frequencies.len() > 0 { self.freq_mhz() } else { 5800 },
            power: if self.levels.len() > 0 { self.level() } else { 1 },
        }
    }

    pub open spec fn queue(self, send: PendingSend) -> EngineView {
        EngineView { pending_sends: self.pending_sends.push(send), ..self }
    }

    pub open spec fn with_level_status(self, level: u8, status: LevelStatusView) -> EngineView {
        EngineView { level_status: self.level_status.insert(level, status), ..self }
    }

    pub open spec fn with_cal_cell(self, level: u8, status: CellStatus) -> EngineView {
        EngineView {
            cal_cells: with_cell(self.cal_cells, (level, self.freq_idx), status),
            ..self
        }
    }

    pub open spec fn with_det_cell(self, level: u8, status: CellStatus) -> EngineView {
        EngineView {
            det_cells: with_cell(self.det_cells, (level, self.freq_idx), status),
            ..self
        }
    }

    pub open spec fn with_steps_done(self, n: usize) -> EngineView {
        EngineView { completed_steps: self.completed_steps.wrapping_add(n), ..self }
    }

    /// The sweep turns to a frequency: the meter is set to it, or the user is asked to.
    pub open spec fn begin_frequency(self, freq_mhz: u16, resume: ResumeMode) -> EngineView {
        let asking = EngineState::AwaitingFreqConfirm { freq_mhz, resume };
        match self.capability {
            CapabilityView::Manual { .. } => EngineView { state: asking, ..self },
            CapabilityView::ManualBand { bands_mhz } => {
                let band = nearest(bands_mhz, freq_mhz as u32);
                if self.last_prompted_band == Some(band) {
                    EngineView {
                        state: resumed(resume),
                        pending_frequency_push: Some(freq_mhz),
                        ..self
                    }
                } else {
                    EngineView { state: asking, last_prompted_band: Some(band), ..self }
                }
            },
            CapabilityView::ProgrammableBand { bands_mhz } => EngineView {
                state: resumed(resume),
                pending_meter_frequency: Some(nearest(bands_mhz, freq_mhz as u32)),
                pending_frequency_push: Some(freq_mhz),
                ..self
            },
            CapabilityView::FullyProgrammable { .. } => EngineView {
                state: resumed(resume),
                pending_meter_frequency: Some(freq_mhz as u32),
                pending_frequency_push: Some(freq_mhz),
                ..self
            },
        }
    }

    pub open spec fn start(self, capability: CapabilityView) -> EngineView {
        if self.levels.len() == 0 || self.frequencies.len() == 0 {
            EngineView { state: EngineState::Idle, ..self }
        } else {
            EngineView {
                freq_idx: 0,
                level_idx: 0,
                last_prompted_band: None,
                capability,
                session_active: true,
                boost_mode: BoostMode::Auto,
                ..self
            }.queue(PendingSend::CalibrationState).begin_frequency(
                self.frequencies[0],
                ResumeMode::Automatic,
            )
        }
    }

    pub open spec fn start_manual(self, capability: CapabilityView) -> EngineView {
        if self.levels.len() == 0 || self.frequencies.len() == 0 {
            EngineView { state: EngineState::Idle, ..self }
        } else {
            EngineView {
                freq_idx: 0,
                level_idx: 0,
                last_prompted_band: None,
                capability,
                manual_send_pending: false,
                session_active: true,
                boost_mode: BoostMode::Off,
                ..self
            }.queue(PendingSend::CalibrationState).begin_frequency(
                self.frequencies[0],
                ResumeMode::Manual,
            )
        }
    }

    pub open spec fn set_pa_boost(self, on: bool) -> EngineView {
        EngineView {
            boost_mode: if on { BoostMode::On } else { BoostMode::Off },
            manual_send_pending: true,
            ..self
        }
    }

    pub open spec fn set_manual_dac(self, mv: i32) -> EngineView {
        EngineView {
            manual_dac_mv: clamped(mv as int, 0, VBIAS_MAX_MV as int) as i32,
            manual_send_pending: true,
            ..self
        }
    }

    /// Whether a point comes after the current one.
    pub open spec fn has_next(self) -> bool {
        self.level_idx + 1 < self.levels.len() || self.freq_idx + 1 < self.frequencies.len()
    }

    /// Whether the next point is the first of another frequency.
    pub open spec fn next_is_new_frequency(self) -> bool {
        self.level_idx + 1 >= self.levels.len()
    }

    /// The next point: all levels of a frequency come before the next frequency.
    pub open spec fn at_next(self) -> EngineView {
        if self.next_is_new_frequency() {
            EngineView { level_idx: 0, freq_idx: (self.freq_idx + 1) as usize, ..self }
        } else {
            EngineView { level_idx: (self.level_idx + 1) as usize, ..self }
        }
    }

    /// The end of the sweep: the VTX in pit mode, the session closed.
    pub open spec fn finished(self) -> EngineView {
        EngineView {
            state: EngineState::Idle,
            session_active: false,
            boost_mode: BoostMode::Auto,
            pending_sends: self.pending_sends.push(self.safe_state()).push(
                PendingSend::CalibrationState,
            ),
            ..self
        }
    }

    /// How the sweep goes on after this point.
    pub open spec fn resume_mode(self) -> ResumeMode {
        if self.state == EngineState::Manual {
            ResumeMode::Manual
        } else {
            ResumeMode::Automatic
        }
    }

    pub open spec fn advance_position(self) -> EngineView {
        if !self.has_next() {
            self.finished()
        } else if self.next_is_new_frequency() {
            self.at_next().begin_frequency(self.at_next().freq_mhz(), self.resume_mode())
        } else {
            EngineView { state: resumed(self.resume_mode()), ..self.at_next() }
        }
    }

    /// The point that comes after the current one.
    pub open spec fn next_point(self) -> Option<(u8, usize)> {
        if self.has_next() {
            Some(self.at_next().point())
        } else {
            None
        }
    }

    /// The user accepts the point as it is.
    pub open spec fn manual_next(self, detector_mv: u16) -> EngineView {
        if self.state != EngineState::Manual {
            self
        } else {
            let level = self.level();
            EngineView {
                pending_result: Some(
                    SweepResult {
                        level,
                        freq_idx: self.freq_idx,
                        vbias_mv: Some(self.manual_dac_mv as u16),
                        detector_mv: Some(detector_mv),
                        success: true,
                        pa_failure: false,
                        not_settled: false,
                    },
                ),
                ..self
            }.with_steps_done(2).with_cal_cell(level, CellStatus::Manual).with_det_cell(
                level,
                CellStatus::Manual,
            ).with_level_status(level, LevelStatusView::Done).advance_position()
        }
    }

    pub open spec fn exit_manual(self) -> EngineView {
        EngineView {
            pending_frequency_push: None,
            manual_send_pending: false,
            ..self.finished()
        }
    }

    pub open spec fn resume_automatic_from_current(self) -> EngineView {
        EngineView {
            manual_send_pending: false,
            state: resumed(ResumeMode::Automatic),
            boost_mode: BoostMode::Auto,
            ..self
        }.queue(PendingSend::CalibrationState).queue(
            PendingSend::RestoreBoost { level: self.level() },
        )
    }

    pub open spec fn confirm_frequency(self) -> EngineView {
        match self.state {
            EngineState::AwaitingFreqConfirm { freq_mhz, resume } => EngineView {
                state: resumed(resume),
                pending_frequency_push: Some(freq_mhz),
                ..self
            },
            _ => self,
        }
    }

    /// What is not done is aborted, and what was to be sent is dropped.
    pub open spec fn abort(self) -> EngineView {
        EngineView {
            level_status: Map::new(
                |l: u8| self.level_status.contains_key(l),
                |l: u8|
                    if self.level_status[l] is Done {
                        LevelStatusView::Done
                    } else {
                        LevelStatusView::Aborted
                    },
            ),
            state: EngineState::Idle,
            pending_frequency_push: None,
            manual_send_pending: false,
            session_active: false,
            boost_mode: BoostMode::Auto,
            pending_sends: seq![self.safe_state(), PendingSend::CalibrationState],
            ..self
        }
    }

    /// Marks the current point as skipped. Of the point where the skipping begins,
    /// only what is still to be done is marked.
    pub open spec fn skip_mark(self, first: bool) -> EngineView {
        let level = self.level();
        let both = self.with_cal_cell(level, CellStatus::Skipped).with_det_cell(
            level,
            CellStatus::Skipped,
        ).with_steps_done(2);
        let marked = if first {
            match self.state {
                EngineState::Automatic(AutomaticStep::ScanDetector(_)) => self.with_det_cell(
                    level,
                    CellStatus::Skipped,
                ).with_steps_done(1),
                EngineState::Automatic(AutomaticStep::EnteringPoint) => self,
                _ => both,
            }
        } else {
            both
        };
        marked.with_level_status(level, LevelStatusView::Skipped)
    }

    /// Skips the points from the `done`th on, up to `count` of them. Also says
    /// whether the sweep is still on, and whether its frequency changed.
    pub open spec fn skip_run(self, done: nat, count: nat) -> (EngineView, Option<bool>)
        decreases count - done,
    {
        if done >= count {
            (self, Some(false))
        } else {
            let marked = self.skip_mark(done == 0);
            if !marked.has_next() {
                (marked.finished(), None)
            } else {
                let (end, crossed) = marked.at_next().skip_run(done + 1, count);
                match crossed {
                    None => (end, None),
                    Some(c) => (end, Some(c || marked.next_is_new_frequency())),
                }
            }
        }
    }

    /// The way to another point: least power without the amplifier, pit mode, and
    /// then the amplifier again.
    pub open spec fn safe_transition(self, from_level: u8) -> EngineView {
        let low = ramp_start(
            self.sign_inverted,
            self.bound_lo(from_level),
            self.bound_hi(from_level),
        );
        self.queue(PendingSend::DacLow { level: from_level, vbias_mv: low as u16 }).queue(
            self.safe_state(),
        ).queue(PendingSend::RestoreBoost { level: self.level() })
    }

    pub open spec fn can_skip(self, count: nat) -> bool {
        count > 0 && (self.state is Manual || self.state is Automatic)
    }

    pub open spec fn skip_multiple(self, count: nat) -> EngineView {
        if !self.can_skip(count) {
            self
        } else {
            let resume = self.resume_mode();
            let (end, crossed) = self.skip_run(0, count);
            match crossed {
                None => end,
                Some(c) => {
                    let safe = end.safe_transition(self.level());
                    if c {
                        safe.begin_frequency(safe.freq_mhz(), resume)
                    } else {
                        EngineView { state: resumed(resume), ..safe }
                    }
                },
            }
        }
    }

    /// Where manual mode goes on after skipping.
    pub open spec fn skip_multiple_result(self, count: nat) -> Option<(u8, usize)> {
        if self.can_skip(count) && self.state is Manual && self.skip_run(0, count).1 is Some {
            Some(self.skip_run(0, count).0.point())
        } else {
            None
        }
    }

    pub open spec fn is_active(self) -> bool {
        self.state != EngineState::Idle
    }

    pub open spec fn is_in_mode(self, mode: ResumeMode) -> bool {
        match self.state {
            EngineState::Idle => false,
            EngineState::Manual => mode is Manual,
            EngineState::Automatic(_) => mode is Automatic,
            EngineState::AwaitingFreqConfirm { resume, .. } => resume == mode,
            EngineState::ConnectionLost { resume, .. } => resume == mode,
        }
    }

    /// The bias of the scan that is under way.
    pub open spec fn scan_vbias_mv(self) -> i32 {
        match self.state {
            EngineState::Automatic(AutomaticStep::ScanPa(st)) => st.vbias_mv,
            EngineState::Automatic(AutomaticStep::ScanDetector(st)) => st.vbias_mv,
            _ => 0,
        }
    }

    /// Marks what was under way at the current point as having hit a limit.
    pub open spec fn with_limit_hit(self) -> EngineView {
        match self.state {
            EngineState::Manual => self.with_cal_cell(self.level(), CellStatus::LimitHit),
            EngineState::Automatic(AutomaticStep::ScanPa(_)) => self.with_cal_cell(
                self.level(),
                CellStatus::LimitHit,
            ),
            EngineState::Automatic(AutomaticStep::ScanDetector(_)) => self.with_det_cell(
                self.level(),
                CellStatus::LimitHit,
            ),
            _ => self,
        }
    }

    pub open spec fn connection_lost(
        self,
        reason: ConnectionLossReason,
        vbias_mv_at_loss: i32,
    ) -> EngineView {
        let marked = if reason is Meter {
            self
        } else {
            self.with_limit_hit()
        };
        EngineView {
            state: EngineState::ConnectionLost {
                level: self.level(),
                freq_mhz: self.freq_mhz(),
                vbias_mv_at_loss,
                reason,
                resume: self.resume_mode(),
            },
            ..marked
        }
    }

    pub open spec fn force_connection_lost(self, reason: ConnectionLossReason) -> EngineView {
        if self.state is Automatic {
            EngineView {
                unresponsive_since: None,
                ..self.connection_lost(reason, self.scan_vbias_mv())
            }
        } else {
            self
        }
    }

    /// The bias to which a level is limited after the VTX fell silent.
    pub open spec fn backed_off(self, vbias_mv_at_loss: i32) -> i32 {
        clamped(
            vbias_mv_at_loss - up(self.sign_inverted) * HEARTBEAT_BACKOFF_MV,
            0,
            VBIAS_MAX_MV as int,
        ) as i32
    }

    /// Both ends answer again: the sweep takes the point up anew, under a limit
    /// where it was the VTX that had fallen silent.
    pub open spec fn auto_resume(
        self,
        level: u8,
        freq_mhz: u16,
        vbias_mv_at_loss: i32,
        reason: ConnectionLossReason,
        resume: ResumeMode,
    ) -> EngineView {
        let safe = self.backed_off(vbias_mv_at_loss);
        let limited = if reason is Meter {
            self
        } else {
            EngineView {
                hard_limits: self.hard_limits.insert(level, safe),
                manual_dac_mv: if resume is Manual { safe } else { self.manual_dac_mv },
                manual_send_pending: resume is Manual || self.manual_send_pending,
                ..self
            }
        };
        EngineView {
            unresponsive_since: None,
            state: resumed(resume),
            pending_frequency_push: Some(freq_mhz),
            ..limited
        }
    }

    pub open spec fn throttled(self, now: u64) -> bool {
        self.last_send matches Some(t) && elapsed(t, now) < SEND_INTERVAL
    }

    /// Whether silence has lasted too long. It is counted from the first poll that
    /// finds an end silent.
    pub open spec fn silence_is_over_limit(self, now: u64) -> bool {
        self.unresponsive_since matches Some(t) && elapsed(t, now) > HEARTBEAT_TIMEOUT
    }

    pub open spec fn loss_reason(vtx_ready: bool, meter_ready: bool) -> ConnectionLossReason {
        if !vtx_ready && !meter_ready {
            ConnectionLossReason::Both
        } else if !vtx_ready {
            ConnectionLossReason::Vtx
        } else {
            ConnectionLossReason::Meter
        }
    }

    /// Watches whether both ends answer.
    pub open spec fn watch_connection(self, inp: PollInput, vbias_mv_now: i32) -> EngineView {
        if inp.vtx_ready && inp.meter_ready {
            EngineView { unresponsive_since: None, ..self }
        } else if self.silence_is_over_limit(inp.now) {
            self.connection_lost(
                EngineView::loss_reason(inp.vtx_ready, inp.meter_ready),
                vbias_mv_now,
            )
        } else if self.unresponsive_since is None {
            EngineView { unresponsive_since: Some(inp.now), ..self }
        } else {
            self
        }
    }

    pub open spec fn trips(self, inp: PollInput) -> bool {
        !(inp.vtx_ready && inp.meter_ready) && self.silence_is_over_limit(inp.now)
    }

    /// The amplifier was enabled when it had not been: what is measured does not
    /// count for a while.
    pub open spec fn note_boost(self, inp: PollInput) -> EngineView {
        match inp.latest_reading {
            Some(reading) => match reading.boost_on {
                Some(on) => if on && self.last_boost_on != Some(true) {
                    EngineView {
                        boost_settle_until: Some(after(inp.now, BOOST_ENABLE_SETTLE_DELAY)),
                        pa_enable_settle_pending: true,
                        last_boost_on: Some(on),
                        ..self
                    }
                } else {
                    EngineView { last_boost_on: Some(on), ..self }
                },
                None => self,
            },
            None => self,
        }
    }

    pub open spec fn pending_message(self, send: PendingSend) -> Message {
        match send {
            PendingSend::SafeState { freq_mhz, power } => Message::VtxConfig {
                freq_mhz,
                power,
                pitmode: true,
            },
            PendingSend::CalibrationState => Message::CalibrationState {
                session_active: self.session_active,
                boost_mode: self.boost_mode,
            },
            PendingSend::RequestVtxConfig => Message::RequestVtxConfig,
            PendingSend::DacLow { level, vbias_mv } => Message::Calibration {
                level,
                mv: Some(vbias_mv),
                session_active: self.session_active,
                boost_mode: BoostMode::Off,
            },
            PendingSend::RestoreBoost { level } => Message::Calibration {
                level,
                mv: None,
                session_active: self.session_active,
                boost_mode: BoostMode::On,
            },
        }
    }

    /// The calibration request for a bias, within the bounds of the level.
    pub open spec fn calibration_message(self, level: u8, vbias_mv: i32) -> Message {
        Message::Calibration {
            level,
            mv: Some(self.in_bounds(level, vbias_mv as int) as u16),
            session_active: self.session_active,
            boost_mode: self.boost_mode,
        }
    }

    pub open spec fn frequency_message(self, freq_mhz: u16) -> Message {
        Message::VtxConfig {
            freq_mhz,
            power: if self.levels.len() > 0 { self.levels[0] } else { 1 },
            pitmode: false,
        }
    }

    /// The scan goes on as `held` while nothing may be sent; else the bias is sent
    /// again, and the scan goes on as `sent`.
    pub open spec fn hold_or_send(
        self,
        inp: PollInput,
        vbias_mv: i32,
        held: AutomaticStep,
        sent: AutomaticStep,
    ) -> (EngineView, PollOutcome) {
        if self.throttled(inp.now) {
            (EngineView { state: EngineState::Automatic(held), ..self }, PollOutcome::Nothing)
        } else {
            (
                self,
                PollOutcome::Send {
                    message: self.calibration_message(self.level(), vbias_mv),
                    after: AfterSend::Scan(sent),
                },
            )
        }
    }

    pub open spec fn boost_settling(self, now: u64) -> bool {
        self.boost_settle_until matches Some(t) && now < t
    }

    /// The beginning of a point.
    pub open spec fn first_scan(self, now: u64) -> ScanPaState {
        let needs_settle = self.pa_enable_settle_pending;
        ScanPaState {
            phase: if needs_settle { ScanPaPhase::Settle } else { ScanPaPhase::CoarseRamp },
            vbias_mv: ramp_start(
                self.sign_inverted,
                self.bound_lo(self.level()),
                self.bound_hi(self.level()),
            ) as i32,
            wait: None,
            settle_started_instant: if needs_settle { Some(now) } else { None },
            settle_timed_out: false,
            coarse_steps_taken: 0,
            last_below_target_mv: None,
            coarse_step_mv: COARSE_RAMP_STEP_MV,
            fine_bound_mv: None,
            fine_started_at: None,
            fine_highest_avg_mw: None,
            fine_settle_until: None,
            fine_started_instant: None,
        }
    }

    pub open spec fn enter_point(self, inp: PollInput) -> (EngineView, PollOutcome) {
        let st = self.first_scan(inp.now);
        self.with_level_status(
            self.level(),
            LevelStatusView::InProgress(
                progress_text(SweepOp::ScanPa, pa_phase_text(st.phase), self.freq_mhz(), None),
            ),
        ).tick_scan_pa(inp, st)
    }

    pub open spec fn tick_scan_pa(self, inp: PollInput, st: ScanPaState) -> (
        EngineView,
        PollOutcome,
    ) {
        if self.boost_settling(inp.now) {
            let held = AutomaticStep::ScanPa(ScanPaState { wait: None, ..st });
            self.hold_or_send(inp, st.vbias_mv, held, held)
        } else {
            let e = EngineView { boost_settle_until: None, ..self };
            if st.phase is Fine {
                match watch_peak(st, inp) {
                    None => (
                        e.finish_scan_pa(st.vbias_mv, ScanPaOutcome::PaFailure),
                        PollOutcome::Nothing,
                    ),
                    Some(watched) => if watched.fine_settle_until matches Some(t) && inp.now < t {
                        let held = AutomaticStep::ScanPa(ScanPaState { wait: None, ..watched });
                        e.hold_or_send(inp, st.vbias_mv, held, held)
                    } else {
                        e.sample_scan_pa(inp, ScanPaState { fine_settle_until: None, ..watched })
                    },
                }
            } else {
                e.sample_scan_pa(inp, st)
            }
        }
    }

    pub open spec fn sample_scan_pa(self, inp: PollInput, st: ScanPaState) -> (
        EngineView,
        PollOutcome,
    ) {
        match st.wait {
            None => self.hold_or_send(
                inp,
                st.vbias_mv,
                AutomaticStep::ScanPa(st),
                AutomaticStep::ScanPa(
                    ScanPaState {
                        wait: Some(
                            SampleWait { start_seq: inp.reading_seq, needed: 4, skip_first: 0 },
                        ),
                        ..st
                    },
                ),
            ),
            Some(w) => if w.is_ready(inp.reading_seq) {
                (self.judge_scan_pa(inp, st), PollOutcome::Nothing)
            } else {
                self.hold_or_send(
                    inp,
                    st.vbias_mv,
                    AutomaticStep::ScanPa(st),
                    AutomaticStep::ScanPa(st),
                )
            },
        }
    }

    pub open spec fn target(self) -> Power {
        Power::of_mw(self.target_mw())
    }

    pub open spec fn judge_scan_pa(self, inp: PollInput, st: ScanPaState) -> EngineView {
        match st.phase {
            ScanPaPhase::Settle => self.judge_settle(inp, st),
            ScanPaPhase::CoarseRamp => self.judge_coarse(inp, st),
            ScanPaPhase::Fine => self.judge_fine(inp, st),
        }
    }

    pub open spec fn go_on_scan_pa(self, st: ScanPaState) -> EngineView {
        EngineView {
            state: EngineState::Automatic(AutomaticStep::ScanPa(st)),
            ..self.with_level_status(
                self.level(),
                LevelStatusView::InProgress(
                    progress_text(
                        SweepOp::ScanPa,
                        pa_phase_text(st.phase),
                        self.freq_mhz(),
                        Some(st.vbias_mv),
                    ),
                ),
            )
        }
    }

    /// The power has to come down to the target after the amplifier was enabled,
    /// within a time.
    pub open spec fn judge_settle(self, inp: PollInput, st: ScanPaState) -> EngineView {
        let timed_out = match st.settle_started_instant {
            Some(t) => elapsed(t, inp.now) >= SETTLE_BELOW_TARGET_TIMEOUT,
            None => true,
        };
        let down = inp.samples.average.at_most(self.target());
        if down || timed_out {
            EngineView { pa_enable_settle_pending: false, ..self }.go_on_scan_pa(
                ScanPaState {
                    phase: ScanPaPhase::CoarseRamp,
                    settle_started_instant: None,
                    settle_timed_out: !down || st.settle_timed_out,
                    wait: None,
                    ..st
                },
            )
        } else {
            self.go_on_scan_pa(ScanPaState { wait: None, ..st })
        }
    }

    /// How far beyond the first bias with too much power a fine search may go.
    pub open spec fn fine_margin(st: ScanPaState) -> int {
        let quarter = st.vbias_mv * 25 / 100;
        if quarter == 0 {
            st.coarse_step_mv as int
        } else {
            quarter
        }
    }

    /// The bias grows in steps until the power reaches the target; the fine search
    /// then begins at the last bias that was below.
    pub open spec fn judge_coarse(self, inp: PollInput, st: ScanPaState) -> EngineView {
        let level = self.level();
        let avg = inp.samples.average;
        if self.target().at_most(avg) {
            match st.last_below_target_mv {
                None => self.finish_scan_pa(
                    st.vbias_mv,
                    if st.settle_timed_out {
                        ScanPaOutcome::NotSettled
                    } else {
                        ScanPaOutcome::Uncalibrated
                    },
                ),
                Some(fine_start) => self.go_on_scan_pa(
                    ScanPaState {
                        fine_bound_mv: Some(
                            self.in_bounds(
                                level,
                                st.vbias_mv + up(self.sign_inverted) * EngineView::fine_margin(st),
                            ) as i32,
                        ),
                        vbias_mv: fine_start,
                        phase: ScanPaPhase::Fine,
                        wait: None,
                        fine_started_at: inp.samples.newest_at,
                        fine_highest_avg_mw: None,
                        fine_settle_until: Some(after(inp.now, FINE_SETTLE_DELAY)),
                        fine_started_instant: Some(inp.now),
                        ..st
                    },
                ),
            }
        } else {
            let step = if inp.samples.near_target.at_most(avg) {
                if st.coarse_step_mv / 2 > 1 {
                    st.coarse_step_mv / 2
                } else {
                    1
                }
            } else {
                st.coarse_step_mv as int
            };
            let next = st.vbias_mv + up(self.sign_inverted) * step;
            if self.allowed(level, next) {
                self.go_on_scan_pa(
                    ScanPaState {
                        coarse_step_mv: step as i32,
                        last_below_target_mv: Some(st.vbias_mv),
                        vbias_mv: next as i32,
                        coarse_steps_taken: st.coarse_steps_taken.wrapping_add(1),
                        wait: None,
                        ..st
                    },
                )
            } else {
                self.finish_scan_pa(st.vbias_mv, ScanPaOutcome::Uncalibrated)
            }
        }
    }

    /// Whether a fine search may use a bias.
    pub open spec fn fine_allowed(self, st: ScanPaState, mv: int) -> bool {
        self.allowed(self.level(), mv) && (st.fine_bound_mv matches Some(b) ==> if self.sign_inverted {
            mv >= b
        } else {
            mv <= b
        })
    }

    /// The bias grows by single millivolts until the power reaches the target.
    pub open spec fn judge_fine(self, inp: PollInput, st: ScanPaState) -> EngineView {
        let next = st.vbias_mv + up(self.sign_inverted);
        if self.target().at_most(inp.samples.average) {
            self.finish_scan_pa(st.vbias_mv, ScanPaOutcome::Success)
        } else if self.fine_allowed(st, next) {
            self.go_on_scan_pa(ScanPaState { vbias_mv: next as i32, wait: None, ..st })
        } else {
            self.finish_scan_pa(st.vbias_mv, ScanPaOutcome::Uncalibrated)
        }
    }

    /// The bias of the point is found, or given up. After a failure of the amplifier
    /// the detector is not searched for.
    pub open spec fn finish_scan_pa(self, vbias_mv: i32, outcome: ScanPaOutcome) -> EngineView {
        let level = self.level();
        let done = EngineView {
            pending_result: Some(
                SweepResult {
                    level,
                    freq_idx: self.freq_idx,
                    vbias_mv: Some(clamped(vbias_mv as int, 0, VBIAS_MAX_MV as int) as u16),
                    detector_mv: None,
                    success: outcome is Success,
                    pa_failure: outcome is PaFailure,
                    not_settled: outcome is NotSettled,
                },
            ),
            ..self
        }.with_steps_done(1).with_cal_cell(level, cell_of(outcome));
        if outcome is PaFailure || outcome is NotSettled {
            done.with_det_cell(level, cell_of(outcome)).with_steps_done(1).with_level_status(
                level,
                if outcome is NotSettled {
                    LevelStatusView::NotSettled
                } else {
                    LevelStatusView::PaFailure
                },
            ).advance_position()
        } else {
            EngineView {
                state: EngineState::Automatic(
                    AutomaticStep::ScanDetector(
                        ScanDetectorState {
                            phase: ScanDetectorPhase::Backoff,
                            vbias_mv: self.in_bounds(
                                level,
                                vbias_mv - up(self.sign_inverted) * 5,
                            ) as i32,
                            wait: None,
                            below: None,
                            above: None,
                            pinned_count: 0,
                            last_reading: None,
                        },
                    ),
                ),
                ..done
            }
        }
    }

    pub open spec fn finish_scan_detector(self, detector_mv: u16, success: bool) -> EngineView {
        let level = self.level();
        EngineView {
            pending_result: Some(
                SweepResult {
                    level,
                    freq_idx: self.freq_idx,
                    vbias_mv: None,
                    detector_mv: Some(detector_mv),
                    success,
                    pa_failure: false,
                    not_settled: false,
                },
            ),
            ..self
        }.with_steps_done(1).with_det_cell(
            level,
            if success {
                CellStatus::Calibrated
            } else {
                CellStatus::Uncalibrated
            },
        ).with_level_status(level, LevelStatusView::Done).advance_position()
    }

    pub open spec fn tick_scan_detector(self, inp: PollInput, st: ScanDetectorState) -> (
        EngineView,
        PollOutcome,
    ) {
        if self.boost_settling(inp.now) {
            let held = AutomaticStep::ScanDetector(ScanDetectorState { wait: None, ..st });
            self.hold_or_send(inp, st.vbias_mv, held, held)
        } else {
            let e = EngineView { boost_settle_until: None, ..self };
            let held = AutomaticStep::ScanDetector(st);
            match st.wait {
                None => e.hold_or_send(
                    inp,
                    st.vbias_mv,
                    held,
                    AutomaticStep::ScanDetector(
                        ScanDetectorState {
                            wait: Some(detector_wait(st.phase, inp.reading_seq)),
                            ..st
                        },
                    ),
                ),
                Some(w) => match st.last_reading {
                    Some(reading) => if w.is_ready(inp.reading_seq) {
                        e.judge_scan_detector(inp, st, reading.detector_mv)
                    } else {
                        e.hold_or_send(inp, st.vbias_mv, held, held)
                    },
                    None => e.hold_or_send(inp, st.vbias_mv, held, held),
                },
            }
        }
    }

    pub open spec fn go_on_scan_detector(self, st: ScanDetectorState) -> EngineView {
        EngineView {
            state: EngineState::Automatic(AutomaticStep::ScanDetector(st)),
            ..self.with_level_status(
                self.level(),
                LevelStatusView::InProgress(
                    progress_text(
                        SweepOp::ScanDetector,
                        detector_phase_text(st.phase),
                        self.freq_mhz(),
                        Some(st.vbias_mv),
                    ),
                ),
            )
        }
    }

    /// The search moves to the bias that it wants, as far as the bounds let it, and
    /// counts how often in a row they did not.
    pub open spec fn moved(self, st: ScanDetectorState, desired: int) -> ScanDetectorState {
        let mv = self.in_bounds(self.level(), desired);
        ScanDetectorState {
            pinned_count: if desired != mv { (st.pinned_count + 1) as u32 } else { 0 },
            vbias_mv: mv as i32,
            wait: None,
            last_reading: None,
            ..st
        }
    }

    pub open spec fn judge_scan_detector(
        self,
        inp: PollInput,
        st: ScanDetectorState,
        detector_mv: u16,
    ) -> (EngineView, PollOutcome) {
        match st.phase {
            ScanDetectorPhase::Backoff => (
                self.judge_backoff(inp, st, detector_mv),
                PollOutcome::Nothing,
            ),
            ScanDetectorPhase::Bracket => self.judge_bracket(inp, st, detector_mv),
        }
    }

    /// The bias falls by single millivolts until the power is below the target.
    pub open spec fn judge_backoff(
        self,
        inp: PollInput,
        st: ScanDetectorState,
        detector_mv: u16,
    ) -> EngineView {
        if inp.samples.average.below(self.target()) {
            self.go_on_scan_detector(
                ScanDetectorState {
                    phase: ScanDetectorPhase::Bracket,
                    wait: None,
                    last_reading: None,
                    pinned_count: 0,
                    ..st
                },
            )
        } else {
            let next = self.moved(st, st.vbias_mv - up(self.sign_inverted));
            if next.pinned_count >= PINNED_LIMIT {
                self.finish_scan_detector(detector_mv, false)
            } else {
                self.go_on_scan_detector(next)
            }
        }
    }

    /// The point captured at this power, and the bias that is wanted next: towards
    /// the target from outside the tolerance, across it from inside.
    pub open spec fn bracket_step(self, inp: PollInput, st: ScanDetectorState, detector_mv: u16) -> (
        ScanDetectorState,
        int,
    ) {
        let avg = inp.samples.average;
        let here = Some(DetectorPoint { average: avg, detector_mv });
        let u = up(self.sign_inverted);
        if avg.below(inp.samples.band_low) {
            (st, st.vbias_mv + u * 2)
        } else if inp.samples.band_high.below(avg) {
            (st, st.vbias_mv - u * 2)
        } else if avg.below(self.target()) {
            (ScanDetectorState { below: here, ..st }, st.vbias_mv + u)
        } else {
            (ScanDetectorState { above: here, ..st }, st.vbias_mv - u)
        }
    }

    /// Looks for a point on either side of the target, close to it.
    pub open spec fn judge_bracket(
        self,
        inp: PollInput,
        st: ScanDetectorState,
        detector_mv: u16,
    ) -> (EngineView, PollOutcome) {
        let (captured, desired) = self.bracket_step(inp, st, detector_mv);
        let next = self.moved(captured, desired);
        if next.pinned_count >= PINNED_LIMIT {
            (self.finish_scan_detector(detector_mv, false), PollOutcome::Nothing)
        } else if next.below is Some && next.above is Some {
            (
                self,
                PollOutcome::Interpolate {
                    target_mw: self.target_mw(),
                    below: next.below->0,
                    above: next.above->0,
                },
            )
        } else {
            (self.go_on_scan_detector(next), PollOutcome::Nothing)
        }
    }

    pub open spec fn poll_automatic(self, inp: PollInput, step: AutomaticStep) -> (
        EngineView,
        PollOutcome,
    ) {
        let watched = self.watch_connection(inp, self.scan_vbias_mv());
        if !inp.can_send {
            (self, PollOutcome::Nothing)
        } else if self.trips(inp) {
            (watched, PollOutcome::Nothing)
        } else {
            match self.pending_frequency_push {
                Some(freq_mhz) => watched.push_frequency(freq_mhz),
                None => {
                    let e = EngineView { state: EngineState::Idle, ..watched };
                    match step {
                        AutomaticStep::EnteringPoint => e.enter_point(inp),
                        AutomaticStep::ScanPa(st) => e.tick_scan_pa(inp, st),
                        AutomaticStep::ScanDetector(st) => e.tick_scan_detector(inp, st),
                    }
                },
            }
        }
    }

    pub open spec fn push_frequency(self, freq_mhz: u16) -> (EngineView, PollOutcome) {
        (
            EngineView { pending_frequency_push: None, ..self },
            PollOutcome::Send {
                message: self.frequency_message(freq_mhz),
                after: AfterSend::RequestVtxConfig,
            },
        )
    }

    pub open spec fn poll_manual(self, inp: PollInput) -> (EngineView, PollOutcome) {
        let watched = self.watch_connection(inp, self.manual_dac_mv);
        if !inp.can_send {
            (self, PollOutcome::Nothing)
        } else if self.trips(inp) {
            (watched, PollOutcome::Nothing)
        } else {
            match self.pending_frequency_push {
                Some(freq_mhz) => watched.push_frequency(freq_mhz),
                None => if !self.manual_send_pending || self.throttled(inp.now) {
                    (watched, PollOutcome::Nothing)
                } else {
                    (
                        watched,
                        PollOutcome::Send {
                            message: Message::Calibration {
                                level: self.level(),
                                mv: Some(self.manual_dac_mv as u16),
                                session_active: self.session_active,
                                boost_mode: self.boost_mode,
                            },
                            after: AfterSend::Manual,
                        },
                    )
                },
            }
        }
    }

    /// The first of what is to be sent before anything else.
    pub open spec fn poll_pending(self, inp: PollInput) -> (EngineView, PollOutcome) {
        if !inp.can_send {
            (self, PollOutcome::Nothing)
        } else {
            let send = self.pending_sends[0];
            (
                EngineView { pending_sends: self.pending_sends.skip(1), ..self },
                PollOutcome::Send {
                    message: self.pending_message(send),
                    after: if send is SafeState {
                        AfterSend::RequestVtxConfig
                    } else {
                        AfterSend::Nothing
                    },
                },
            )
        }
    }

    #[verifier::opaque]
    pub open spec fn poll_dispatch(self, inp: PollInput) -> (EngineView, PollOutcome) {
        let e = self.note_boost(inp);
        if e.pending_sends.len() > 0 {
            e.poll_pending(inp)
        } else {
            match e.state {
                EngineState::ConnectionLost { level, freq_mhz, vbias_mv_at_loss, reason, resume } => (
                    if inp.vtx_ready && inp.meter_ready {
                        e.auto_resume(level, freq_mhz, vbias_mv_at_loss, reason, resume)
                    } else {
                        e
                    },
                    PollOutcome::Nothing,
                ),
                EngineState::Manual => e.poll_manual(inp),
                EngineState::Automatic(step) => e.poll_automatic(inp, step),
                _ => (e, PollOutcome::Nothing),
            }
        }
    }

    /// One turn of the sweep. What it has sent is taken up by [`EngineView::sent`].
    pub open spec fn poll(self, inp: PollInput) -> (EngineView, PollOutcome) {
        let (e, outcome) = self.poll_dispatch(inp);
        (
            EngineView { state: state_with_reading(e.state, inp.latest_reading), ..e },
            outcome_with_reading(outcome, inp.latest_reading),
        )
    }

    pub open spec fn can_take(self, after: AfterSend) -> bool {
        after matches AfterSend::Scan(step) ==> step_ok(step) && self.levels.len() > 0
            && self.frequencies.len() > 0
    }

    /// A message was sent at `now`.
    pub open spec fn sent(self, after: AfterSend, now: u64) -> EngineView {
        match after {
            AfterSend::Nothing => self,
            AfterSend::RequestVtxConfig => self.queue(PendingSend::RequestVtxConfig),
            AfterSend::Manual => EngineView {
                last_send: Some(now),
                manual_send_pending: false,
                ..self
            },
            AfterSend::Scan(step) => EngineView {
                last_send: Some(now),
                state: EngineState::Automatic(step),
                ..self
            },
        }
    }

    pub open spec fn sample_request(self) -> SampleRequest {
        let (wait, since) = match self.state {
            EngineState::Automatic(AutomaticStep::ScanPa(st)) => (
                st.wait,
                if st.phase is Fine {
                    st.fine_started_at
                } else {
                    None
                },
            ),
            EngineState::Automatic(AutomaticStep::ScanDetector(st)) => (st.wait, None),
            _ => (None, None),
        };
        SampleRequest {
            newest: match wait {
                Some(w) => (w.needed - w.skip_first) as usize,
                None => 0,
            },
            rolling_since: since,
            target_mw: if self.levels.len() > 0 { self.target_mw() } else { 0 },
        }
    }

    pub open spec fn current_step(self) -> Option<CurrentStep> {
        if self.levels.len() == 0 {
            None
        } else {
            match self.state {
                EngineState::Manual => Some(
                    CurrentStep {
                        level: self.level(),
                        freq_idx: self.freq_idx,
                        vbias_mv: Some(self.manual_dac_mv),
                        detector_mv: None,
                        cal_is_current: true,
                        det_is_current: true,
                    },
                ),
                EngineState::Automatic(AutomaticStep::ScanPa(st)) => Some(
                    CurrentStep {
                        level: self.level(),
                        freq_idx: self.freq_idx,
                        vbias_mv: Some(st.vbias_mv),
                        detector_mv: None,
                        cal_is_current: true,
                        det_is_current: false,
                    },
                ),
                EngineState::Automatic(AutomaticStep::ScanDetector(st)) => Some(
                    CurrentStep {
                        level: self.level(),
                        freq_idx: self.freq_idx,
                        vbias_mv: None,
                        detector_mv: match st.last_reading {
                            Some(r) => Some(r.detector_mv as i32),
                            None => None,
                        },
                        cal_is_current: false,
                        det_is_current: true,
                    },
                ),
                _ => None,
            }
        }
    }
}

/// Whether an outcome can be followed up.
pub open spec fn outcome_ok(outcome: PollOutcome, e: EngineView) -> bool {
    match outcome {
        PollOutcome::Nothing => true,
        PollOutcome::Send { after, .. } => e.can_take(after),
        PollOutcome::Interpolate { .. } => e.levels.len() > 0 && e.frequencies.len() > 0,
    }
}

pub open spec fn cell_of(outcome: ScanPaOutcome) -> CellStatus {
    match outcome {
        ScanPaOutcome::Success => CellStatus::Calibrated,
        ScanPaOutcome::Uncalibrated => CellStatus::Uncalibrated,
        ScanPaOutcome::PaFailure => CellStatus::PaFailure,
        ScanPaOutcome::NotSettled => CellStatus::NotSettled,
    }
}

/// How many samples a detector search waits for.
pub open spec fn detector_wait(phase: ScanDetectorPhase, seq: u64) -> SampleWait {
    match phase {
        ScanDetectorPhase::Backoff => SampleWait { start_seq: seq, needed: 1, skip_first: 0 },
        ScanDetectorPhase::Bracket => SampleWait { start_seq: seq, needed: 20, skip_first: 10 },
    }
}

/// A fine search keeps the highest rolling average. Once its grace period is over, it
/// fails when the rolling average falls too far below.
pub open spec fn watch_peak(st: ScanPaState, inp: PollInput) -> Option<ScanPaState> {
    match inp.samples.rolling {
        Some(rolling) => if st.fine_started_at is None {
            Some(st)
        } else {
            let in_grace = st.fine_started_instant matches Some(t) && elapsed(t, inp.now)
                < PA_FAILURE_GRACE_DURATION;
            match st.fine_highest_avg_mw {
                Some(peak) => if !in_grace && rolling.average.below(peak.floor) {
                    None
                } else {
                    Some(ScanPaState { fine_highest_avg_mw: Some(higher(peak, rolling)), ..st })
                },
                None => Some(ScanPaState { fine_highest_avg_mw: Some(rolling), ..st }),
            }
        },
        None => Some(st),
    }
}

/// The one with the larger average.
pub open spec fn higher(peak: RollingAverage, rolling: RollingAverage) -> RollingAverage {
    if peak.average.is_nan() || peak.average.below(rolling.average) {
        rolling
    } else {
        peak
    }
}

/// A detector search remembers the newest reading of the VTX.
pub open spec fn step_with_reading(
    step: AutomaticStep,
    reading: Option<PaCalibrationReading>,
) -> AutomaticStep {
    match step {
        AutomaticStep::ScanDetector(st) => match reading {
            Some(r) => AutomaticStep::ScanDetector(
                ScanDetectorState { last_reading: Some(r), ..st },
            ),
            None => step,
        },
        _ => step,
    }
}

pub open spec fn state_with_reading(
    state: EngineState,
    reading: Option<PaCalibrationReading>,
) -> EngineState {
    match state {
        EngineState::Automatic(step) => EngineState::Automatic(step_with_reading(step, reading)),
        _ => state,
    }
}

pub open spec fn outcome_with_reading(
    outcome: PollOutcome,
    reading: Option<PaCalibrationReading>,
) -> PollOutcome {
    match outcome {
        PollOutcome::Send { message, after: AfterSend::Scan(step) } => PollOutcome::Send {
            message,
            after: AfterSend::Scan(step_with_reading(step, reading)),
        },
        _ => outcome,
    }
}

} // verus!

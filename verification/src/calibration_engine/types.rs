//! What a sweep is made of.

use vstd::prelude::*;

use crate::msp::PaCalibrationReading;
use crate::power::Power;

verus! {

/// Where the bias voltage ends, in millivolts.
pub const VBIAS_MAX_MV: i32 = 3300;

pub const COARSE_RAMP_START_MARGIN_MV: i32 = 0;

pub const COARSE_RAMP_STEP_MV: i32 = 25;

/// How far the bias stays away from where the VTX fell silent.
pub const HEARTBEAT_BACKOFF_MV: i32 = 50;

/// How often in a row the search may want to leave the allowed range.
pub const PINNED_LIMIT: u32 = 5;

/// No sample counts for this long after a fine search begins.
pub const FINE_SETTLE_DELAY: u64 = 2_000_000_000;

/// A fine search is not given up over a fall in power before this time.
pub const PA_FAILURE_GRACE_DURATION: u64 = 15_000_000_000;

/// No sample counts for this long after the amplifier was enabled.
pub const BOOST_ENABLE_SETTLE_DELAY: u64 = 2_000_000_000;

/// How long the power may take to fall to its target after the amplifier was enabled.
pub const SETTLE_BELOW_TARGET_TIMEOUT: u64 = 60_000_000_000;

/// How long the VTX or the meter may be silent.
pub const HEARTBEAT_TIMEOUT: u64 = 500_000_000;

/// The least time between two calibration requests.
pub const SEND_INTERVAL: u64 = 100_000_000;

#[derive(Clone, Copy, Debug, PartialEq, Eq, Structural)]
pub enum SweepOp {
    ScanPa,
    ScanDetector,
}

impl SweepOp {
    pub open spec fn spec_label(self) -> Seq<char> {
        match self {
            SweepOp::ScanPa => "ScanPa"@,
            SweepOp::ScanDetector => "ScanDetector"@,
        }
    }

    pub fn label(self) -> (r: &'static str)
        ensures
            r@ == self.spec_label(),
    {
        match self {
            SweepOp::ScanPa => "ScanPa",
            SweepOp::ScanDetector => "ScanDetector",
        }
    }
}

#[derive(Debug)]
pub enum LevelStatus {
    NotCalibrated,
    Pending,
    InProgress(String),
    Done,
    Aborted,
    Skipped,
    PaFailure,
    NotSettled,
}

#[verifier::ext_equal]
pub enum LevelStatusView {
    NotCalibrated,
    Pending,
    InProgress(Seq<char>),
    Done,
    Aborted,
    Skipped,
    PaFailure,
    NotSettled,
}

impl View for LevelStatus {
    type V = LevelStatusView;

    open spec fn view(&self) -> LevelStatusView {
        match *self {
            LevelStatus::NotCalibrated => LevelStatusView::NotCalibrated,
            LevelStatus::Pending => LevelStatusView::Pending,
            LevelStatus::InProgress(s) => LevelStatusView::InProgress(s@),
            LevelStatus::Done => LevelStatusView::Done,
            LevelStatus::Aborted => LevelStatusView::Aborted,
            LevelStatus::Skipped => LevelStatusView::Skipped,
            LevelStatus::PaFailure => LevelStatusView::PaFailure,
            LevelStatus::NotSettled => LevelStatusView::NotSettled,
        }
    }
}

impl Clone for LevelStatus {
    fn clone(&self) -> (r: Self)
        ensures
            r@ == self@,
    {
        match self {
            LevelStatus::NotCalibrated => LevelStatus::NotCalibrated,
            LevelStatus::Pending => LevelStatus::Pending,
            LevelStatus::InProgress(s) => LevelStatus::InProgress(s.clone()),
            LevelStatus::Done => LevelStatus::Done,
            LevelStatus::Aborted => LevelStatus::Aborted,
            LevelStatus::Skipped => LevelStatus::Skipped,
            LevelStatus::PaFailure => LevelStatus::PaFailure,
            LevelStatus::NotSettled => LevelStatus::NotSettled,
        }
    }
}

/// How the search for the bias of one point ended.
#[derive(Clone, Copy, Debug, PartialEq, Eq, Structural)]
pub enum ScanPaOutcome {
    Success,
    Uncalibrated,
    PaFailure,
    NotSettled,
}

/// Samples that are waited for: `needed` of them, the first `skip_first` of which
/// do not count.
#[derive(Clone, Copy, Debug, PartialEq, Eq, Structural)]
pub struct SampleWait {
    pub start_seq: u64,
    pub needed: usize,
    pub skip_first: usize,
}

impl SampleWait {
    pub fn new(current_seq: u64, needed: usize, skip_first: usize) -> (r: Self)
        ensures
            r == (SampleWait { start_seq: current_seq, needed, skip_first }),
    {
        SampleWait { start_seq: current_seq, needed, skip_first }
    }

    pub open spec fn is_ready(self, current_seq: u64) -> bool {
        current_seq >= self.start_seq + self.needed
    }

    pub fn ready(&self, current_seq: u64) -> (r: bool)
        ensures
            r == self.is_ready(current_seq),
    {
        current_seq >= self.start_seq && current_seq - self.start_seq >= self.needed as u64
    }
}

#[derive(Clone, Copy, Debug, PartialEq, Eq, Structural)]
pub enum ResumeMode {
    Automatic,
    Manual,
}

#[derive(Clone, Copy, Debug, PartialEq, Eq, Structural)]
pub enum ScanPaPhase {
    Settle,
    CoarseRamp,
    Fine,
}

/// A rolling average, and the reading below which the power has fallen too far from it.
#[derive(Clone, Copy, Debug, PartialEq, Eq, Structural)]
pub struct RollingAverage {
    pub average: Power,
    pub floor: Power,
}

/// The search for the bias that gives the target power.
#[derive(Clone, Copy, Debug, PartialEq, Eq, Structural)]
pub struct ScanPaState {
    pub phase: ScanPaPhase,
    pub vbias_mv: i32,
    pub wait: Option<SampleWait>,
    pub settle_started_instant: Option<u64>,
    pub settle_timed_out: bool,
    pub coarse_steps_taken: u32,
    pub last_below_target_mv: Option<i32>,
    pub coarse_step_mv: i32,
    pub fine_bound_mv: Option<i32>,
    /// The moment of the newest sample when the fine search began.
    pub fine_started_at: Option<u64>,
    pub fine_highest_avg_mw: Option<RollingAverage>,
    pub fine_settle_until: Option<u64>,
    pub fine_started_instant: Option<u64>,
}

#[derive(Clone, Copy, Debug, PartialEq, Eq, Structural)]
pub enum ScanDetectorPhase {
    Backoff,
    Bracket,
}

/// A power and what the detector read at it.
#[derive(Clone, Copy, Debug, PartialEq, Eq, Structural)]
pub struct DetectorPoint {
    pub average: Power,
    pub detector_mv: u16,
}

/// The search for the detector voltage at the target power.
#[derive(Clone, Copy, Debug, PartialEq, Eq, Structural)]
pub struct ScanDetectorState {
    pub phase: ScanDetectorPhase,
    pub vbias_mv: i32,
    pub wait: Option<SampleWait>,
    pub below: Option<DetectorPoint>,
    pub above: Option<DetectorPoint>,
    pub pinned_count: u32,
    pub last_reading: Option<PaCalibrationReading>,
}

#[derive(Clone, Copy, Debug, PartialEq, Eq, Structural)]
pub enum AutomaticStep {
    EnteringPoint,
    ScanPa(ScanPaState),
    ScanDetector(ScanDetectorState),
}

#[derive(Clone, Copy, Debug, PartialEq, Eq, Structural)]
pub enum ConnectionLossReason {
    Vtx,
    Meter,
    Both,
}

#[derive(Clone, Copy, Debug, PartialEq, Eq, Structural)]
pub enum EngineState {
    Idle,
    AwaitingFreqConfirm { freq_mhz: u16, resume: ResumeMode },
    Automatic(AutomaticStep),
    Manual,
    ConnectionLost {
        level: u8,
        freq_mhz: u16,
        vbias_mv_at_loss: i32,
        reason: ConnectionLossReason,
        resume: ResumeMode,
    },
}

#[derive(Clone, Copy, Debug, PartialEq, Eq, Structural)]
pub struct SweepResult {
    pub level: u8,
    pub freq_idx: usize,
    pub vbias_mv: Option<u16>,
    pub detector_mv: Option<u16>,
    pub success: bool,
    pub pa_failure: bool,
    pub not_settled: bool,
}

#[derive(Clone, Copy, Debug, PartialEq, Eq, Structural)]
pub struct CurrentStep {
    pub level: u8,
    pub freq_idx: usize,
    pub vbias_mv: Option<i32>,
    pub detector_mv: Option<i32>,
    pub cal_is_current: bool,
    pub det_is_current: bool,
}

#[derive(Clone, Copy, Debug)]
pub struct StepDebugInfo {
    pub scan_phase: &'static str,
    pub drop_detector_active: bool,
    pub fine_bound_mv: Option<i32>,
    pub fine_highest_avg_mw: Option<Power>,
    pub detector: Option<DetectorDebugInfo>,
}

#[derive(Clone, Copy, Debug)]
pub struct DetectorDebugInfo {
    pub phase: &'static str,
    pub below: Option<DetectorPoint>,
    pub above: Option<DetectorPoint>,
    pub pinned_count: u32,
}

#[derive(Clone, Copy, Debug, PartialEq, Eq, Structural)]
pub enum BoostMode {
    Off,
    On,
    Auto,
}

impl BoostMode {
    pub open spec fn byte(self) -> u8 {
        match self {
            BoostMode::Off => 0,
            BoostMode::On => 1,
            BoostMode::Auto => 2,
        }
    }

    pub fn wire_byte(self) -> (r: u8)
        ensures
            r == self.byte(),
    {
        match self {
            BoostMode::Off => 0,
            BoostMode::On => 1,
            BoostMode::Auto => 2,
        }
    }
}

/// What is sent before the sweep goes on.
#[derive(Clone, Copy, Debug, PartialEq, Eq, Structural)]
pub enum PendingSend {
    /// Pit mode, at this frequency and power.
    SafeState { freq_mhz: u16, power: u8 },
    CalibrationState,
    RequestVtxConfig,
    DacLow { level: u8, vbias_mv: u16 },
    RestoreBoost { level: u8 },
}

/// What is sent to the VTX.
#[derive(Clone, Copy, Debug, PartialEq, Eq, Structural)]
pub enum Message {
    VtxConfig { freq_mhz: u16, power: u8, pitmode: bool },
    RequestVtxConfig,
    CalibrationState { session_active: bool, boost_mode: BoostMode },
    Calibration { level: u8, mv: Option<u16>, session_active: bool, boost_mode: BoostMode },
}

/// What a sent message changes.
#[derive(Clone, Copy, Debug, PartialEq, Eq, Structural)]
pub enum AfterSend {
    Nothing,
    RequestVtxConfig,
    Manual,
    Scan(AutomaticStep),
}

/// What the sweep wants done.
#[derive(Clone, Copy, Debug, PartialEq, Eq, Structural)]
pub enum PollOutcome {
    Nothing,
    Send { message: Message, after: AfterSend },
    /// The detector voltage at the target, between two points.
    Interpolate { target_mw: u16, below: DetectorPoint, above: DetectorPoint },
}

/// What the meter's samples say of the point that is being measured.
#[derive(Clone, Copy, Debug, PartialEq, Eq, Structural)]
pub struct Samples {
    /// The average of the newest samples, as many as are asked for.
    pub average: Power,
    /// The rolling average of the fine search, where there are samples enough.
    pub rolling: Option<RollingAverage>,
    /// The moment of the newest sample.
    pub newest_at: Option<u64>,
    /// Nine tenths of the target.
    pub near_target: Power,
    /// The target less the tolerance.
    pub band_low: Power,
    /// The target and the tolerance.
    pub band_high: Power,
}

/// Which samples the sweep needs.
#[derive(Clone, Copy, Debug, PartialEq, Eq, Structural)]
pub struct SampleRequest {
    /// How many of the newest samples are averaged.
    pub newest: usize,
    /// Where the rolling average begins.
    pub rolling_since: Option<u64>,
    /// The target of the current level.
    pub target_mw: u16,
}

/// What the sweep learns with each poll.
#[derive(Clone, Copy, Debug, PartialEq, Eq, Structural)]
pub struct PollInput {
    pub now: u64,
    pub can_send: bool,
    pub reading_seq: u64,
    pub latest_reading: Option<PaCalibrationReading>,
    pub vtx_ready: bool,
    pub meter_ready: bool,
    pub samples: Samples,
}

} // verus!

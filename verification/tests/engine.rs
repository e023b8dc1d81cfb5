use std::collections::HashMap;
use vtx_tool::calibration_engine::cells::{CellStatus, CellTable};
use vtx_tool::calibration_engine::types::{
    AfterSend, AutomaticStep, BoostMode, ConnectionLossReason, EngineState, LevelStatus, Message,
    PendingSend, PollInput, PollOutcome, ResumeMode, RollingAverage, Samples, ScanPaPhase,
};
use vtx_tool::calibration_engine::{
    build_vtx_config_frequency_payload, coarse_ramp_start_vbias_mv, power_up_step,
    set_cell_status, SweepEngine,
};
use vtx_tool::history::History;
use vtx_tool::msp::link::{MspCommandKind, MspLink};
use vtx_tool::msp::PaCalibrationReading;
use vtx_tool::power::Power;
use vtx_tool::power_meter::{FrequencyCapability, PowerMeterKind};

const MS: u64 = 1_000_000;

fn p(v: f32) -> Power {
    Power { bits: v.to_bits() }
}

/// A sweep with a simulated transmitter and a simulated meter.
struct Bench {
    engine: SweepEngine,
    link: MspLink,
    history: History<f32>,
    now: u64,
    seq: u64,
    mv: u16,
    boost: bool,
    vtx_ready: bool,
    meter_ready: bool,
    sent: Vec<Message>,
    results: Vec<(u8, usize, Option<u16>, Option<u16>, bool)>,
    power: fn(u16, u64) -> f32,
}

fn linear(mv: u16, _now: u64) -> f32 {
    mv as f32 / 10.0
}

fn engine(levels: Vec<u8>, frequencies: Vec<u16>, inverted: bool, targets: &[(u8, u16)]) -> SweepEngine {
    let targets: HashMap<u8, u16> = targets.iter().copied().collect();
    SweepEngine::new(levels, frequencies, inverted, targets, 5)
}

impl Bench {
    fn new(engine: SweepEngine, power: fn(u16, u64) -> f32) -> Bench {
        Bench {
            engine,
            link: MspLink::new(0),
            history: History::new(),
            now: 0,
            seq: 0,
            mv: 0,
            boost: false,
            vtx_ready: true,
            meter_ready: true,
            sent: Vec::new(),
            results: Vec::new(),
            power,
        }
    }

    fn samples(&self) -> Samples {
        let request = self.engine.sample_request();
        let values = self.history.newest(request.newest);
        let sum: f32 = values.iter().sum();
        let average = sum / request.newest.max(1) as f32;
        let rolling = request.rolling_since.and_then(|since| self.history.rolling_since(since)).map(|v| {
            let a = v.iter().sum::<f32>() / v.len() as f32;
            RollingAverage { average: p(a), floor: p(a * (1.0 - 0.03)) }
        });
        let target = request.target_mw as f32;
        let dev = (target * 10.0 / 100.0).max(0.1);
        Samples {
            average: p(average),
            rolling,
            newest_at: self.history.newest_at(),
            near_target: p(target * 0.90),
            band_low: p(target - dev),
            band_high: p(target + dev),
        }
    }

    /// Ten milliseconds pass. The meter reads five times a second, the transmitter
    /// reports four times a second.
    fn tick(&mut self) -> PollOutcome {
        self.now += 10 * MS;
        if self.now % (200 * MS) == 0 {
            self.history.push(self.now, (self.power)(self.mv, self.now));
            self.history.trim_stale_history(self.now);
            self.seq += 1;
        }
        let reading = if self.now % (250 * MS) == 0 {
            Some(PaCalibrationReading {
                power_level: 1,
                vref_mv: self.mv,
                detector_mv: self.mv / 2,
                boost_on: Some(self.boost),
                rtc6705_level: None,
                pid_active: None,
                frequency_mhz: None,
                session_active: None,
                ntc_raw: None,
                pa_temp_c_x10: None,
            })
        } else {
            None
        };
        let input = PollInput {
            now: self.now,
            can_send: self.link.can_send_now(self.now),
            reading_seq: self.seq,
            latest_reading: reading,
            vtx_ready: self.vtx_ready,
            meter_ready: self.meter_ready,
            samples: self.samples(),
        };
        let outcome = self.engine.poll(&input);
        match outcome {
            PollOutcome::Nothing => {}
            PollOutcome::Send { message, after } => {
                assert!(self.link.can_send_now(self.now));
                if let Message::Calibration { mv: Some(mv), .. } = message {
                    self.mv = mv;
                }
                self.sent.push(message);
                self.engine.sent(&mut self.link, &message, after, self.now);
            }
            PollOutcome::Interpolate { target_mw, below, above } => {
                let (p0, p1) = (f32::from_bits(below.average.bits), f32::from_bits(above.average.bits));
                let t = (target_mw as f32 - p0) / (p1 - p0);
                let (d0, d1) = (below.detector_mv as f32, above.detector_mv as f32);
                self.engine.interpolated((d0 + t * (d1 - d0)).round() as u16);
            }
        }
        if let Some(r) = self.engine.pending_result.take() {
            self.results.push((r.level, r.freq_idx, r.vbias_mv, r.detector_mv, r.success));
        }
        outcome
    }

    fn run(&mut self, seconds: u64) {
        let end = self.now + seconds * 1000 * MS;
        while self.now < end {
            self.tick();
        }
    }

    fn run_to_the_end(&mut self) {
        let mut turns: u64 = 0;
        while self.engine.is_active() {
            self.tick();
            turns += 1;
            assert!(turns < 2_000_000, "the sweep does not end");
        }
    }
}

fn v2() -> FrequencyCapability {
    PowerMeterKind::ImmersionRcV2.capability()
}

#[test]
fn a_sweep_finds_every_target() {
    let mut b = Bench::new(engine(vec![1, 2], vec![5700, 5900], false, &[(1, 20), (2, 40)]), linear);
    assert_eq!(b.engine.progress(), (0, 8));
    b.engine.start(v2());
    b.run_to_the_end();
    assert_eq!(
        b.results,
        vec![
            (1, 0, Some(200), None, true),
            (1, 0, None, Some(100), true),
            (2, 0, Some(400), None, true),
            (2, 0, None, Some(200), true),
            (1, 1, Some(200), None, true),
            (1, 1, None, Some(100), true),
            (2, 1, Some(400), None, true),
            (2, 1, None, Some(200), true),
        ]
    );
    assert_eq!(b.engine.progress(), (8, 8));
    for level in [1u8, 2] {
        assert!(matches!(b.engine.per_level_status.get(&level), Some(LevelStatus::Done)));
        for f in [0usize, 1] {
            assert_eq!(b.engine.cal_cell_status.get(level, f), Some(CellStatus::Calibrated));
            assert_eq!(b.engine.det_cell_status.get(level, f), Some(CellStatus::Calibrated));
        }
    }
    assert!(b.sent.iter().all(|m| match m {
        Message::Calibration { mv: Some(mv), .. } => *mv <= 3300,
        _ => true,
    }));
    b.sent.clear();
    b.run(1);
    assert_eq!(
        b.sent,
        vec![
            Message::VtxConfig { freq_mhz: 5900, power: 2, pitmode: true },
            Message::CalibrationState { session_active: false, boost_mode: BoostMode::Auto },
            Message::RequestVtxConfig,
        ]
    );
}

#[test]
fn an_inverted_sweep_comes_from_above() {
    let mut b = Bench::new(engine(vec![1], vec![5800], true, &[(1, 20)]), |mv, _| (3300 - mv) as f32 / 10.0);
    b.mv = 3300;
    b.engine.start(v2());
    b.run_to_the_end();
    assert_eq!(b.results[0], (1, 0, Some(3100), None, true));
    assert_eq!(b.results[1], (1, 0, None, Some(1550), true));
}

#[test]
fn a_target_out_of_reach_is_not_calibrated() {
    let mut b = Bench::new(engine(vec![1], vec![5800], false, &[(1, 1000)]), linear);
    b.engine.start(v2());
    b.run_to_the_end();
    assert_eq!(b.results[0], (1, 0, Some(3300), None, false));
    assert_eq!(b.results[1], (1, 0, None, Some(1650), false));
    assert_eq!(b.engine.cal_cell_status.get(1, 0), Some(CellStatus::Uncalibrated));
    assert_eq!(b.engine.det_cell_status.get(1, 0), Some(CellStatus::Uncalibrated));
}

#[test]
fn a_start_above_the_target_is_not_calibrated() {
    let mut b = Bench::new(engine(vec![1], vec![5800], false, &[(1, 5)]), |_, _| 6.0);
    b.engine.start(v2());
    b.run_to_the_end();
    assert_eq!(b.results[0], (1, 0, Some(0), None, false));
    assert_eq!(b.engine.cal_cell_status.get(1, 0), Some(CellStatus::Uncalibrated));
}

#[test]
fn an_amplifier_that_does_not_settle_is_passed_over() {
    let mut b = Bench::new(engine(vec![1], vec![5800], false, &[(1, 5)]), |_, _| 6.0);
    b.boost = true;
    b.engine.start(PowerMeterKind::GenericManual.capability());
    b.run(1);
    b.engine.confirm_frequency();
    b.run_to_the_end();
    assert_eq!(b.results, vec![(1, 0, Some(0), None, false)]);
    assert!(b.now > 60_000 * MS);
    assert_eq!(b.engine.cal_cell_status.get(1, 0), Some(CellStatus::NotSettled));
    assert_eq!(b.engine.det_cell_status.get(1, 0), Some(CellStatus::NotSettled));
    assert!(matches!(b.engine.per_level_status.get(&1), Some(LevelStatus::NotSettled)));
    assert_eq!(b.engine.progress(), (2, 2));
}

#[test]
fn a_falling_amplifier_is_a_failure() {
    let mut b = Bench::new(engine(vec![1], vec![5800], false, &[(1, 20)]), |mv, now| {
        if mv < 200 {
            mv as f32 / 10.0
        } else if now < 80_000 * MS {
            20.0
        } else {
            19.9
        }
    });
    b.engine.start(v2());
    let mut in_fine = false;
    while b.engine.is_active() {
        b.tick();
        if let EngineState::Automatic(AutomaticStep::ScanPa(st)) = b.engine.state {
            if st.phase == ScanPaPhase::Fine && !in_fine {
                in_fine = true;
                let started = st.fine_started_instant.unwrap();
                b.power = |_, _| 15.0;
                b.run(15);
                b.power = |_, _| 5.0;
                assert_eq!(b.now - started, 15_000 * MS);
            }
        }
    }
    assert!(in_fine);
    assert_eq!(b.results.len(), 1);
    assert!(!b.results[0].4);
    assert_eq!(b.engine.cal_cell_status.get(1, 0), Some(CellStatus::PaFailure));
    assert_eq!(b.engine.det_cell_status.get(1, 0), Some(CellStatus::PaFailure));
    assert!(matches!(b.engine.per_level_status.get(&1), Some(LevelStatus::PaFailure)));
}

#[test]
fn nothing_is_judged_while_the_amplifier_settles() {
    let mut b = Bench::new(engine(vec![1], vec![5800], false, &[(1, 5)]), |_, _| 1.0);
    b.boost = true;
    b.engine.start(PowerMeterKind::GenericManual.capability());
    b.run(1);
    b.engine.confirm_frequency();
    b.run(1);
    let EngineState::Automatic(AutomaticStep::ScanPa(st)) = b.engine.state else { panic!() };
    assert_eq!(st.phase, ScanPaPhase::Settle);
    assert_eq!(st.wait, None);
    assert_eq!(st.vbias_mv, 0);
    assert_eq!(b.engine.debug_state(b.now).scan_phase, "Settle");
}

#[test]
fn a_silent_transmitter_limits_its_level() {
    let mut b = Bench::new(engine(vec![3], vec![5800], false, &[(3, 300)]), linear);
    b.engine.start(v2());
    while b.mv < 500 {
        b.tick();
    }
    b.vtx_ready = false;
    b.run(1);
    assert_eq!(
        b.engine.state,
        EngineState::ConnectionLost {
            level: 3,
            freq_mhz: 5800,
            vbias_mv_at_loss: 500,
            reason: ConnectionLossReason::Vtx,
            resume: ResumeMode::Automatic,
        }
    );
    assert_eq!(b.engine.cal_cell_status.get(3, 0), Some(CellStatus::LimitHit));
    b.vtx_ready = true;
    b.sent.clear();
    b.tick();
    assert_eq!(b.engine.hard_limits.get(&3), Some(&450));
    b.run_to_the_end();
    assert_eq!(b.sent[0], Message::VtxConfig { freq_mhz: 5800, power: 3, pitmode: false });
    assert!(b.sent.iter().all(|m| match m {
        Message::Calibration { mv: Some(mv), .. } => *mv <= 450,
        _ => true,
    }));
    assert_eq!(b.engine.cal_cell_status.get(3, 0), Some(CellStatus::LimitHit));
    b.engine.clear_hard_limits();
    b.engine.clear_cell_status();
    assert_eq!(b.engine.hard_limits.get(&3), None);
    assert_eq!(b.engine.cal_cell_status.get(3, 0), None);
}

#[test]
fn a_silent_meter_changes_no_bound() {
    let mut b = Bench::new(engine(vec![3], vec![5800], false, &[(3, 300)]), linear);
    b.engine.start(v2());
    b.run(5);
    b.meter_ready = false;
    b.run(1);
    assert!(matches!(
        b.engine.state,
        EngineState::ConnectionLost { reason: ConnectionLossReason::Meter, .. }
    ));
    b.meter_ready = true;
    b.tick();
    assert!(b.engine.hard_limits.is_empty());
    assert_eq!(b.engine.cal_cell_status.get(3, 0), None);
    assert!(b.engine.is_automatic_mode());
}

#[test]
fn both_can_be_silent() {
    let mut b = Bench::new(engine(vec![3], vec![5800], false, &[(3, 300)]), linear);
    b.engine.start(v2());
    b.vtx_ready = false;
    b.meter_ready = false;
    b.run(1);
    assert!(matches!(
        b.engine.state,
        EngineState::ConnectionLost { reason: ConnectionLossReason::Both, .. }
    ));
    assert!(b.engine.is_automatic_mode() && b.engine.is_active());
}

#[test]
fn a_lost_link_stops_an_automatic_sweep_only() {
    let mut e = engine(vec![1], vec![5800], false, &[(1, 20)]);
    e.force_connection_lost(ConnectionLossReason::Vtx);
    assert_eq!(e.state, EngineState::Idle);
    e.start_manual(v2());
    e.force_connection_lost(ConnectionLossReason::Vtx);
    assert_eq!(e.state, EngineState::Manual);
    e.start(v2());
    e.force_connection_lost(ConnectionLossReason::Meter);
    assert!(matches!(e.state, EngineState::ConnectionLost { vbias_mv_at_loss: 0, .. }));
}

#[test]
fn an_abort_makes_the_transmitter_safe() {
    let mut b = Bench::new(engine(vec![1, 2], vec![5800], false, &[(1, 20), (2, 40)]), linear);
    b.engine.start(v2());
    b.run(5);
    b.engine.abort();
    assert_eq!(b.engine.state, EngineState::Idle);
    assert_eq!(
        b.engine.pending_sends,
        vec![PendingSend::SafeState { freq_mhz: 5800, power: 1 }, PendingSend::CalibrationState]
    );
    assert!(matches!(b.engine.per_level_status.get(&2), Some(LevelStatus::Aborted)));
    b.sent.clear();
    b.run(1);
    assert_eq!(
        b.sent,
        vec![
            Message::VtxConfig { freq_mhz: 5800, power: 1, pitmode: true },
            Message::CalibrationState { session_active: false, boost_mode: BoostMode::Auto },
            Message::RequestVtxConfig,
        ]
    );
}

#[test]
fn an_idle_sweep_is_silent() {
    let mut b = Bench::new(engine(vec![1], vec![5800], false, &[]), linear);
    b.run(1);
    assert!(b.sent.is_empty());
    let mut none = engine(vec![], vec![5800], false, &[]);
    none.start(v2());
    assert!(!none.is_active());
    assert_eq!(none.progress(), (1, 1));
    assert_eq!(none.current_step(), None);
}

#[test]
fn nothing_is_sent_on_a_busy_link() {
    let mut b = Bench::new(engine(vec![1], vec![5800], false, &[(1, 20)]), linear);
    b.engine.start(v2());
    b.link.note_sent(MspCommandKind::Retune, 0);
    for _ in 0..4 {
        assert_eq!(b.tick(), PollOutcome::Nothing);
    }
    assert_ne!(b.tick(), PollOutcome::Nothing);
}

#[test]
fn one_prompt_for_one_band() {
    let mut b = Bench::new(engine(vec![1], vec![5700, 5800, 2500], false, &[(1, 20)]), linear);
    b.engine.start(PowerMeterKind::ImmersionRcV1.capability());
    assert_eq!(
        b.engine.state,
        EngineState::AwaitingFreqConfirm { freq_mhz: 5700, resume: ResumeMode::Automatic }
    );
    b.run(1);
    assert_eq!(b.sent.len(), 1);
    b.engine.confirm_frequency();
    assert_eq!(b.engine.pending_frequency_push, Some(5700));
    let mut prompts = Vec::new();
    let mut turns: u64 = 0;
    while b.engine.is_active() && turns < 1_000_000 {
        b.tick();
        turns += 1;
        if let EngineState::AwaitingFreqConfirm { freq_mhz, .. } = b.engine.state {
            prompts.push(freq_mhz);
            b.engine.confirm_frequency();
        }
    }
    assert_eq!(prompts, vec![2500]);
    assert_eq!(b.results.len(), 6);
    assert!(b.sent.contains(&Message::VtxConfig { freq_mhz: 2500, power: 1, pitmode: false }));
}

#[test]
fn meters_are_retuned_where_they_can_be() {
    let mut e = engine(vec![1], vec![5720], false, &[(1, 20)]);
    e.start(v2());
    assert_eq!(e.pending_meter_frequency, Some(5700));
    assert_eq!(e.pending_frequency_push, Some(5720));
    let mut e = engine(vec![1], vec![5720], false, &[(1, 20)]);
    e.start(PowerMeterKind::GenericFullyProgrammable.capability());
    assert_eq!(e.pending_meter_frequency, Some(5720));
    let mut e = engine(vec![1], vec![5720], false, &[(1, 20)]);
    e.start(PowerMeterKind::GenericManual.capability());
    assert_eq!(e.pending_meter_frequency, None);
    assert!(matches!(e.state, EngineState::AwaitingFreqConfirm { freq_mhz: 5720, .. }));
}

#[test]
fn manual_mode_goes_from_point_to_point() {
    let mut b = Bench::new(engine(vec![1, 2], vec![5700, 5900], false, &[]), linear);
    b.engine.start_manual(v2());
    assert!(b.engine.is_manual_mode() && !b.engine.is_automatic_mode());
    b.engine.set_manual_dac(5000);
    assert_eq!(b.engine.manual_dac_mv, 3300);
    b.engine.set_manual_dac(-1);
    assert_eq!(b.engine.manual_dac_mv, 0);
    b.engine.set_manual_dac(1200);
    b.engine.set_pa_boost(true);
    b.run(1);
    assert_eq!(
        b.sent,
        vec![
            Message::CalibrationState { session_active: true, boost_mode: BoostMode::On },
            Message::VtxConfig { freq_mhz: 5700, power: 1, pitmode: false },
            Message::RequestVtxConfig,
            Message::Calibration {
                level: 1,
                mv: Some(1200),
                session_active: true,
                boost_mode: BoostMode::On
            },
        ]
    );
    assert_eq!(b.engine.manual_next(77), Some((2, 0)));
    assert_eq!(b.engine.manual_next(78), Some((1, 1)));
    assert_eq!(b.engine.manual_next(79), Some((2, 1)));
    let step = b.engine.current_step().unwrap();
    assert_eq!((step.level, step.freq_idx, step.vbias_mv), (2, 1, Some(1200)));
    assert_eq!(b.engine.manual_next(80), None);
    assert_eq!(b.engine.state, EngineState::Idle);
    assert_eq!(b.engine.manual_next(81), None);
    let r = b.engine.pending_result.unwrap();
    assert_eq!((r.level, r.freq_idx, r.vbias_mv, r.detector_mv), (2, 1, Some(1200), Some(80)));
    assert_eq!(b.engine.cal_cell_status.get(1, 0), Some(CellStatus::Manual));
    assert_eq!(b.engine.progress(), (8, 8));
}

#[test]
fn manual_mode_can_be_left_and_made_automatic() {
    let mut e = engine(vec![1, 2], vec![5700], false, &[]);
    e.start_manual(v2());
    e.resume_automatic_from_current();
    assert_eq!(e.state, EngineState::Automatic(AutomaticStep::EnteringPoint));
    assert!(e.pending_sends.contains(&PendingSend::RestoreBoost { level: 1 }));
    let mut e = engine(vec![1, 2], vec![5700], false, &[]);
    e.start_manual(v2());
    e.exit_manual();
    assert_eq!(e.state, EngineState::Idle);
    assert_eq!(e.pending_frequency_push, None);
    assert_eq!(
        e.pending_sends,
        vec![
            PendingSend::CalibrationState,
            PendingSend::SafeState { freq_mhz: 5700, power: 1 },
            PendingSend::CalibrationState
        ]
    );
}

#[test]
fn a_manual_sweep_backs_off_after_silence() {
    let mut b = Bench::new(engine(vec![1], vec![5700], false, &[]), linear);
    b.engine.start_manual(v2());
    b.engine.set_manual_dac(1000);
    b.run(1);
    b.vtx_ready = false;
    b.run(1);
    assert!(b.engine.is_manual_mode());
    assert!(matches!(b.engine.state, EngineState::ConnectionLost { .. }));
    b.vtx_ready = true;
    b.tick();
    assert_eq!(b.engine.manual_dac_mv, 950);
    assert_eq!(b.engine.state, EngineState::Manual);
    assert_eq!(b.engine.hard_limits.get(&1), Some(&950));
}

#[test]
fn skipping_goes_on_safely() {
    let mut b = Bench::new(engine(vec![1, 2, 3], vec![5700, 5900], false, &[(1, 20)]), linear);
    assert_eq!(b.engine.skip_multiple(1), None);
    b.engine.start(v2());
    b.run(3);
    assert_eq!(b.engine.skip_multiple(0), None);
    assert_eq!(b.engine.skip_multiple(2), None);
    assert_eq!((b.engine.level_idx, b.engine.freq_idx), (2, 0));
    assert_eq!(b.engine.progress(), (4, 12));
    assert_eq!(b.engine.cal_cell_status.get(1, 0), Some(CellStatus::Skipped));
    assert_eq!(b.engine.cal_cell_status.get(2, 0), Some(CellStatus::Skipped));
    assert!(matches!(b.engine.per_level_status.get(&2), Some(LevelStatus::Skipped)));
    assert_eq!(
        b.engine.pending_sends,
        vec![
            PendingSend::DacLow { level: 1, vbias_mv: 0 },
            PendingSend::SafeState { freq_mhz: 5700, power: 3 },
            PendingSend::RestoreBoost { level: 3 },
        ]
    );
    b.sent.clear();
    b.run(1);
    assert_eq!(
        b.sent[..3],
        [
            Message::Calibration {
                level: 1,
                mv: Some(0),
                session_active: true,
                boost_mode: BoostMode::Off
            },
            Message::VtxConfig { freq_mhz: 5700, power: 3, pitmode: true },
            Message::Calibration {
                level: 3,
                mv: None,
                session_active: true,
                boost_mode: BoostMode::On
            },
        ]
    );
    assert_eq!(b.engine.skip_multiple(100), None);
    assert_eq!(b.engine.state, EngineState::Idle);
}

#[test]
fn a_manual_skip_says_where_it_went() {
    let mut e = engine(vec![1, 2], vec![5700, 5900], false, &[]);
    e.start_manual(v2());
    assert_eq!(e.skip_multiple(1), Some((2, 0)));
    assert_eq!(e.skip_multiple(1), Some((1, 1)));
    assert_eq!(e.pending_frequency_push, Some(5900));
    assert_eq!(e.skip_multiple(9), None);
    assert!(!e.is_active());
}

#[test]
fn messages_are_framed() {
    let m = Message::VtxConfig { freq_mhz: 5800, power: 2, pitmode: true };
    assert_eq!(m.kind(), MspCommandKind::Retune);
    let f = m.frame();
    assert_eq!(f[..5], [b'$', b'M', b'<', 15, 88]);
    assert_eq!(f[5..20], build_vtx_config_frequency_payload(5800, 2, true)[..]);
    assert_eq!(
        build_vtx_config_frequency_payload(5800, 2, true),
        vec![5, 0, 0, 2, 1, 0xA8, 0x16, 1, 0, 0, 0, 1, 0, 0, 0]
    );
    let m = Message::Calibration {
        level: 4,
        mv: Some(700),
        session_active: true,
        boost_mode: BoostMode::Auto,
    };
    assert_eq!(m.kind(), MspCommandKind::Calibration);
    assert_eq!(m.frame()[8..13], [4, 188, 2, 1, 2]);
    assert_eq!(Message::RequestVtxConfig.frame()[3], 0);
    assert_eq!(Message::RequestVtxConfig.kind(), MspCommandKind::Other);
}

#[test]
fn the_ramp_starts_at_the_quiet_end() {
    assert_eq!(power_up_step(false), 1);
    assert_eq!(power_up_step(true), -1);
    assert_eq!(coarse_ramp_start_vbias_mv(false, 0, 450), 0);
    assert_eq!(coarse_ramp_start_vbias_mv(true, 450, 3300), 3300);
    assert_eq!(BoostMode::Auto.wire_byte(), 2);
}

#[test]
fn a_message_that_was_not_sent_leaves_the_scan() {
    let mut b = Bench::new(engine(vec![1], vec![5800], false, &[(1, 20)]), linear);
    b.engine.start(v2());
    b.run(1);
    let mut after = AfterSend::Nothing;
    while !matches!(after, AfterSend::Scan(_)) {
        b.now += 10 * MS;
        let input = PollInput {
            now: b.now,
            can_send: true,
            reading_seq: b.seq,
            latest_reading: None,
            vtx_ready: true,
            meter_ready: true,
            samples: b.samples(),
        };
        if let PollOutcome::Send { after: a, .. } = b.engine.poll(&input) {
            after = a;
        }
    }
    assert!(!b.engine.is_active());
}

#[test]
fn the_detector_search_starts_five_millivolts_towards_less_power() {
    let sweeps: [(bool, fn(u16, u64) -> f32, i32); 2] =
        [(false, linear, 195), (true, |mv, _| (3300 - mv) as f32 / 10.0, 3105)];
    for (inverted, power, start) in sweeps {
        let mut b = Bench::new(engine(vec![1], vec![5800], inverted, &[(1, 20)]), power);
        b.engine.start(v2());
        let mut turns: u64 = 0;
        let found = loop {
            b.tick();
            turns += 1;
            assert!(turns < 1_000_000);
            if let EngineState::Automatic(AutomaticStep::ScanDetector(st)) = b.engine.state {
                break st.vbias_mv;
            }
        };
        assert_eq!(found, start);
    }
}

#[test]
fn points_follow_their_numbers() {
    let levels: Vec<u8> = vec![3, 5, 9];
    let mut b = Bench::new(engine(levels.clone(), vec![5700, 5800], false, &[]), linear);
    b.engine.start_manual(v2());
    for k in 1..6usize {
        assert_eq!(b.engine.manual_next(0), Some((levels[k % 3], k / 3)));
    }
    assert_eq!(b.engine.manual_next(0), None);
}

#[test]
fn a_cell_holds_its_last_status() {
    let mut cells = CellTable::new();
    set_cell_status(&mut cells, 1, 0, CellStatus::Skipped);
    set_cell_status(&mut cells, 1, 1, CellStatus::Manual);
    set_cell_status(&mut cells, 1, 0, CellStatus::Calibrated);
    assert_eq!(cells.get(1, 0), Some(CellStatus::Calibrated));
    assert_eq!(cells.get(1, 1), Some(CellStatus::Manual));
    set_cell_status(&mut cells, 1, 1, CellStatus::LimitHit);
    set_cell_status(&mut cells, 1, 1, CellStatus::Calibrated);
    set_cell_status(&mut cells, 1, 0, CellStatus::Uncalibrated);
    assert_eq!(cells.get(1, 1), Some(CellStatus::LimitHit));
    assert_eq!(cells.get(1, 0), Some(CellStatus::Uncalibrated));
    assert_eq!(cells.get(2, 0), None);
}

#[test]
fn indices_go_through_every_point_once() {
    let mut e = engine(vec![3, 5, 9], vec![5700, 5800], false, &[]);
    for k in 1..6usize {
        assert_eq!(e.advance_indices(), Some(k % 3 == 0));
        assert_eq!((e.level_idx, e.freq_idx), (k % 3, k / 3));
    }
    assert_eq!(e.advance_indices(), None);
    assert_eq!((e.level_idx, e.freq_idx), (2, 1));
    assert_eq!(engine(vec![], vec![], false, &[]).advance_indices(), None);
}

use std::collections::HashMap;
use vtx_tool::calibration::{
    calibration_frame, EngineState, Input, Outcome, ScanDetectorPhase, ScanPaPhase, ScanPaState, StepState,
    SweepEngine,
};
use vtx_tool::calibration_engine::types::{LevelStatus, SampleWait};
use vtx_tool::msp::frame::build_command_v2;
use vtx_tool::msp::{function, PaCalibrationReading};
use vtx_tool::power::Power;

const MS: u64 = 1_000_000;

fn p(v: f32) -> Power {
    Power { bits: v.to_bits() }
}

fn sweep(levels: Vec<u8>, frequencies: Vec<u16>, targets: &[(u8, u16)]) -> SweepEngine {
    let targets: HashMap<u8, u16> = targets.iter().copied().collect();
    SweepEngine::new(levels, frequencies, true, targets, 5)
}

fn mv_of(step: &Option<StepState>) -> i32 {
    match step {
        Some(StepState::Pa(st)) => st.mv,
        Some(StepState::Detector(st)) => st.mv,
        None => 0,
    }
}

/// Runs until the sweep pauses or ends, with a transmitter whose power falls by a
/// tenth of a milliwatt for each millivolt. Gives what was found.
fn run(e: &mut SweepEngine) -> Vec<(u8, usize, Option<u16>, Option<u16>)> {
    let mut found = Vec::new();
    let mut mv: u16 = 3300;
    let mut now: u64 = 0;
    let mut len: u64 = 0;
    let mut turns: u64 = 0;
    while matches!(e.state, EngineState::Running) {
        turns += 1;
        assert!(turns < 1_000_000, "the sweep does not end");
        now += 100 * MS;
        len += 1;
        assert!(mv_of(&e.step) >= 0 && mv_of(&e.step) <= 3300);
        let target = e.levels.get(e.level_idx).and_then(|l| e.target_mw_by_level.get(l)).copied().unwrap_or(0) as f32;
        let dev = (target * 10.0 / 100.0).max(0.1);
        let outcome = e.poll(&Input {
            now,
            history_len: len,
            latest_reading: Some(PaCalibrationReading {
                power_level: 1,
                vref_mv: mv,
                detector_mv: mv / 2,
                boost_on: None,
                rtc6705_level: None,
                pid_active: None,
                frequency_mhz: None,
                session_active: None,
                ntc_raw: None,
                pa_temp_c_x10: None,
            }),
            average: p((3300 - mv) as f32 / 10.0),
            near_target: p(target * 0.80),
            band_low: p(target - dev),
            band_high: p(target + dev),
        });
        match outcome {
            Outcome::Nothing => {}
            Outcome::Send { mv: wanted, step, .. } => {
                mv = wanted;
                e.sent(step, now);
            }
            Outcome::Interpolate { below, above, .. } => {
                assert!(below.average.lt(above.average));
                e.interpolated(above.detector_mv);
            }
        }
        if let Some(r) = e.pending_result.take() {
            found.push((r.level, r.freq_idx, r.calibration_mv, r.detector_mv));
        }
    }
    found
}

#[test]
fn frequencies_come_one_after_the_other() {
    let mut e = sweep(vec![1, 2], vec![5700, 5900], &[(1, 30), (2, 50)]);
    e.start(true);
    assert_eq!(e.state, EngineState::AwaitingFreqConfirm { freq_mhz: 5700 });
    e.confirm_frequency();
    let first = run(&mut e);
    assert_eq!(first.len(), 4);
    assert_eq!(first[0], (1, 0, Some(3000), None));
    assert_eq!((first[1].0, first[1].1, first[1].2), (1, 0, None));
    assert_eq!(first[2], (2, 0, Some(2800), None));
    assert_eq!(e.state, EngineState::AwaitingFreqConfirm { freq_mhz: 5900 });
    e.confirm_frequency();
    let second = run(&mut e);
    assert_eq!(second.len(), 4);
    assert_eq!(second[0], (1, 1, Some(3000), None));
    assert_eq!(e.state, EngineState::Idle);
    assert_eq!(e.progress(), (8, 8));
    assert!(matches!(e.per_level_status.get(&2), Some(LevelStatus::Done)));
}

#[test]
fn a_target_out_of_reach_ends_the_ramp() {
    let mut e = sweep(vec![1], vec![5700], &[(1, 60000)]);
    e.start(false);
    assert_eq!(e.state, EngineState::Running);
    let mut now: u64 = 0;
    let mut len: u64 = 0;
    while e.pending_result.is_none() {
        now += 100 * MS;
        len += 1;
        let outcome = e.poll(&Input {
            now,
            history_len: len,
            latest_reading: None,
            average: p(1.0),
            near_target: p(48000.0),
            band_low: p(54000.0),
            band_high: p(66000.0),
        });
        if let Outcome::Send { step, .. } = outcome {
            e.sent(step, now);
        }
    }
    assert_eq!(e.pending_result.unwrap().calibration_mv, Some(0));
}

#[test]
fn an_aborted_sweep_is_idle() {
    let mut e = sweep(vec![1, 2], vec![5700], &[(1, 30)]);
    e.start(false);
    assert!(e.is_active());
    e.abort();
    assert!(!e.is_active());
    assert!(matches!(e.per_level_status.get(&1), Some(LevelStatus::Aborted)));
    let mut none = sweep(vec![], vec![5700], &[]);
    none.start(false);
    assert!(!none.is_active());
    assert_eq!(none.progress(), (1, 1));
}

/// Where the search for the detector begins after a fine search ended at `mv`.
fn detector_start(sign_inverted: bool, mv: i32) -> i32 {
    let targets: HashMap<u8, u16> = [(1, 100)].into_iter().collect();
    let mut e = SweepEngine::new(vec![1], vec![5700], sign_inverted, targets, 5);
    e.start(false);
    let wait = Some(SampleWait { start_seq: 0, needed: 4, skip_first: 0 });
    e.step = Some(StepState::Pa(ScanPaState { phase: ScanPaPhase::Fine, mv, wait }));
    let outcome = e.poll(&Input {
        now: 0,
        history_len: 4,
        latest_reading: None,
        average: p(100.0),
        near_target: p(80.0),
        band_low: p(90.0),
        band_high: p(110.0),
    });
    assert_eq!(outcome, Outcome::Nothing);
    assert_eq!(e.pending_result.unwrap().calibration_mv, Some(mv as u16));
    match e.step {
        Some(StepState::Detector(st)) => {
            assert_eq!(st.phase, ScanDetectorPhase::Backoff);
            st.mv
        }
        other => panic!("not at the detector: {other:?}"),
    }
}

#[test]
fn the_detector_search_begins_with_less_power() {
    assert_eq!(detector_start(false, 1000), 995);
    assert_eq!(detector_start(false, 5), 0);
    assert_eq!(detector_start(false, 3), 0);
    assert_eq!(detector_start(false, 3300), 3295);
    assert_eq!(detector_start(true, 1000), 1005);
    assert_eq!(detector_start(true, 0), 5);
    assert_eq!(detector_start(true, 3295), 3300);
}

#[test]
fn a_bias_is_judged_by_new_samples() {
    let mut e = sweep(vec![1], vec![5700], &[(1, 30)]);
    e.start(false);
    let mut inp = Input {
        now: 0,
        history_len: 500,
        latest_reading: None,
        average: p(1.0),
        near_target: p(24.0),
        band_low: p(27.0),
        band_high: p(33.0),
    };
    let Outcome::Send { mv: 3200, step, .. } = e.poll(&inp) else {
        panic!("no bias is sent");
    };
    e.sent(step, 0);
    inp.history_len = 503;
    assert_eq!(e.poll(&inp), Outcome::Nothing);
    assert_eq!(mv_of(&e.step), 3200);
    inp.history_len = 504;
    assert_eq!(e.poll(&inp), Outcome::Nothing);
    assert_eq!(mv_of(&e.step), 3150);
}

#[test]
fn a_bias_travels_in_a_calibration_request() {
    let mut e = sweep(vec![4], vec![5700], &[(4, 30)]);
    e.start(false);
    let outcome = e.poll(&Input {
        now: 0,
        history_len: 0,
        latest_reading: None,
        average: p(1.0),
        near_target: p(24.0),
        band_low: p(27.0),
        band_high: p(33.0),
    });
    let wanted = build_command_v2(function::SET_PACALIBRATION, Some(&[4, 0x80, 0x0c, 1, 2]));
    assert_eq!(outcome.frame(true, 2), Some(wanted));
    assert_eq!(outcome.frame(false, 1), Some(calibration_frame(4, 3200, false, 1)));
    assert_eq!(Outcome::Nothing.frame(true, 2), None);
}

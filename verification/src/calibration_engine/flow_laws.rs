//! How a sweep goes from point to point, by itself and by hand.

use vstd::prelude::*;

use crate::calibration_engine::cells::CellStatus;
use crate::calibration_engine::laws::{
    law_plan_and_limit_hits_stay,
    law_points_are_swept_in_order,
    ordinal,
    points_on,
    Event,
};
use crate::calibration_engine::model::{
    in_range,
    pa_phase_text,
    progress_text,
    resumed,
    state_with_reading,
    watch_peak,
    EngineView,
};
use crate::calibration_engine::scan_laws::{
    gain,
    in_scan_detector,
    in_scan_pa,
    same_place,
    status_or_limit,
};
use crate::calibration_engine::types::{
    AfterSend,
    AutomaticStep,
    BoostMode,
    ConnectionLossReason,
    CurrentStep,
    EngineState,
    LevelStatusView,
    Message,
    PendingSend,
    PollInput,
    PollOutcome,
    ResumeMode,
    ScanDetectorState,
    ScanPaOutcome,
    ScanPaState,
    SweepOp,
    SweepResult,
};
use crate::calibration_engine::vtx_config_frequency_payload;
use crate::msp::frame::{first_frame, law_command_v1_reads_back, law_command_v2_reads_back};
use crate::msp::link::MspLink;
use crate::msp::{function, le16, pa_calibration_request, vtx_config_of};
use crate::power_meter::{law_no_band_is_nearer, nearest, nearest_index, CapabilityView};

verus! {

/// The sweep `b` is at the point of `a`, or at the next one, with a report on the point that
/// it left.
pub open spec fn at_most_one_on(a: EngineView, b: EngineView) -> bool {
    same_place(a, b) || {
        &&& a.has_next()
        &&& same_place(a.at_next(), b)
        &&& b.pending_result matches Some(r) && r.level == a.levels[a.level_idx as int]
            && r.freq_idx == a.freq_idx
    }
}

proof fn lemma_finishing_is_one_on(e: EngineView, vbias_mv: i32, outcome: ScanPaOutcome)
    ensures
        at_most_one_on(e, e.finish_scan_pa(vbias_mv, outcome)),
{
}

proof fn lemma_detector_is_one_on(e: EngineView, detector_mv: u16, success: bool)
    ensures
        at_most_one_on(e, e.finish_scan_detector(detector_mv, success)),
{
}

#[verifier::rlimit(60)]
proof fn lemma_scan_pa_is_one_on(e: EngineView, inp: PollInput, st: ScanPaState)
    ensures
        at_most_one_on(e, e.tick_scan_pa(inp, st).0),
{
    let d = EngineView { boost_settle_until: None, ..e };
    lemma_finishing_is_one_on(d, st.vbias_mv, ScanPaOutcome::Success);
    lemma_finishing_is_one_on(d, st.vbias_mv, ScanPaOutcome::Uncalibrated);
    lemma_finishing_is_one_on(d, st.vbias_mv, ScanPaOutcome::PaFailure);
    lemma_finishing_is_one_on(d, st.vbias_mv, ScanPaOutcome::NotSettled);
    assert(at_most_one_on(d, d.judge_scan_pa(inp, st)));
    match watch_peak(st, inp) {
        Some(watched) => {
            let settled = ScanPaState { fine_settle_until: None, ..watched };
            assert(at_most_one_on(d, d.judge_scan_pa(inp, settled)));
        },
        None => {},
    }
}

#[verifier::rlimit(60)]
proof fn lemma_scan_detector_is_one_on(e: EngineView, inp: PollInput, st: ScanDetectorState)
    ensures
        at_most_one_on(e, e.tick_scan_detector(inp, st).0),
{
    let d = EngineView { boost_settle_until: None, ..e };
    match st.last_reading {
        Some(reading) => {
            lemma_detector_is_one_on(d, reading.detector_mv, false);
        },
        None => {},
    }
}

proof fn lemma_entering_is_one_on(e: EngineView, inp: PollInput)
    ensures
        at_most_one_on(e, e.enter_point(inp).0),
{
    let st = e.first_scan(inp.now);
    let status = LevelStatusView::InProgress(
        progress_text(SweepOp::ScanPa, pa_phase_text(st.phase), e.freq_mhz(), None),
    );
    let d = e.with_level_status(e.level(), status);
    lemma_scan_pa_is_one_on(d, inp, st);
    let n = d.tick_scan_pa(inp, st).0;
    assert(e.enter_point(inp).0 == n);
    assert(at_most_one_on(d, n));
    assert(same_place(e, d));
}

proof fn lemma_automatic_is_one_on(e: EngineView, inp: PollInput, step: AutomaticStep)
    ensures
        at_most_one_on(e, e.poll_automatic(inp, step).0),
{
    let watched = e.watch_connection(inp, e.scan_vbias_mv());
    let d = EngineView { state: EngineState::Idle, ..watched };
    let n = match step {
        AutomaticStep::EnteringPoint => {
            lemma_entering_is_one_on(d, inp);
            d.enter_point(inp).0
        },
        AutomaticStep::ScanPa(st) => {
            lemma_scan_pa_is_one_on(d, inp, st);
            d.tick_scan_pa(inp, st).0
        },
        AutomaticStep::ScanDetector(st) => {
            lemma_scan_detector_is_one_on(d, inp, st);
            d.tick_scan_detector(inp, st).0
        },
    };
    assert(at_most_one_on(d, n));
    assert(same_place(e, watched));
    assert(same_place(e, d));
    let r = e.poll_automatic(inp, step).0;
    assert(r == n || r == e || r == watched || r == (EngineView {
        pending_frequency_push: None,
        ..watched
    }));
}

/// A turn of the sweep leaves a point for the next one only, and only with a report on the
/// point that it leaves. So does a detector voltage that was interpolated.
pub proof fn law_a_turn_goes_one_point_on_at_most(e: EngineView, inp: PollInput, detector_mv: u16)
    ensures
        at_most_one_on(e, e.poll(inp).0),
        at_most_one_on(e, e.finish_scan_detector(detector_mv, true)),
{
    lemma_detector_is_one_on(e, detector_mv, true);
    let n = e.note_boost(inp);
    let d = e.poll_dispatch(inp).0;
    assert(at_most_one_on(n, d)) by {
        reveal(EngineView::poll_dispatch);
        match n.state {
            EngineState::Automatic(step) => {
                lemma_automatic_is_one_on(n, inp, step);
            },
            _ => {},
        }
    }
    assert(same_place(e, n));
    assert(same_place(d, e.poll(inp).0));
}

/// The sweep `b` is not before the point of `a`.
pub open spec fn not_behind(a: EngineView, b: EngineView) -> bool {
    b.freq_idx > a.freq_idx || (b.freq_idx == a.freq_idx && b.level_idx >= a.level_idx)
}

proof fn lemma_skipping_is_not_behind(e: EngineView, done: nat, count: nat)
    requires
        e.wf(),
        e.levels.len() > 0,
        e.levels.len() <= usize::MAX,
        e.frequencies.len() <= usize::MAX,
        e.frequencies.len() > 0,
    ensures
        not_behind(e, e.skip_run(done, count).0),
    decreases count - done,
{
    if done < count {
        let marked = e.skip_mark(done == 0);
        if marked.has_next() {
            assert(e.levels.contains(e.level()));
            assert(marked.wf());
            law_points_are_swept_in_order(marked);
            lemma_skipping_is_not_behind(marked.at_next(), done + 1, count);
        }
    }
}

/// Only a new start takes a sweep back to a point that it has left.
#[verifier::rlimit(60)]
pub proof fn law_only_a_start_goes_back(e: EngineView, event: Event)
    requires
        e.wf(),
        e.levels.len() <= usize::MAX,
        e.frequencies.len() <= usize::MAX,
        e.levels.len() > 0,
        e.frequencies.len() > 0,
        !(event is Start),
        !(event is StartManual),
    ensures
        not_behind(e, e.apply(event)),
        ordinal(e.apply(event)) >= ordinal(e),
{
    match event {
        Event::Poll(inp) => {
            law_a_turn_goes_one_point_on_at_most(e, inp, 0);
        },
        Event::Interpolated(d) => {
            lemma_detector_is_one_on(e, d, true);
        },
        Event::SkipMultiple(n) => {
            lemma_skipping_is_not_behind(e, 0, n);
        },
        _ => {},
    }
    let r = e.apply(event);
    assert(not_behind(e, r));
    let l = e.levels.len() as int;
    assert(r.levels == e.levels) by {
        law_plan_and_limit_hits_stay(e, event);
    }
    if r.freq_idx > e.freq_idx {
        assert(r.freq_idx * l >= (e.freq_idx + 1) * l) by (nonlinear_arith)
            requires
                r.freq_idx >= e.freq_idx + 1,
                l >= 0,
        ;
        assert((e.freq_idx + 1) * l == e.freq_idx * l + l) by (nonlinear_arith);
    }
}

/// Going over from manual to automatic mode stays at the point: the amplifier is asked back
/// for its level, and the scan takes the point up anew.
pub proof fn law_going_automatic_stays_at_the_point(e: EngineView)
    ensures
        ({
            let r = e.resume_automatic_from_current();
            &&& r.level_idx == e.level_idx
            &&& r.freq_idx == e.freq_idx
            &&& r.state == EngineState::Automatic(AutomaticStep::EnteringPoint)
            &&& r.is_in_mode(ResumeMode::Automatic)
            &&& !r.manual_send_pending
            &&& r.boost_mode is Auto
            &&& r.session_active == e.session_active
            &&& r.pending_sends == e.pending_sends + seq![
                PendingSend::CalibrationState,
                PendingSend::RestoreBoost { level: e.levels[e.level_idx as int] },
            ]
            &&& r.cal_cells == e.cal_cells
            &&& r.det_cells == e.det_cells
            &&& r.completed_steps == e.completed_steps
        }),
{
    assert(e.resume_automatic_from_current().pending_sends =~= e.pending_sends + seq![
        PendingSend::CalibrationState,
        PendingSend::RestoreBoost { level: e.levels[e.level_idx as int] },
    ]);
}

/// A sweep starts at its first point with an open session. By itself it lets the VTX decide
/// about the amplifier, by hand it begins with it off.
pub proof fn law_a_sweep_starts_at_its_first_point(e: EngineView, capability: CapabilityView)
    requires
        e.levels.len() > 0,
        e.frequencies.len() > 0,
    ensures
        ({
            let (a, m) = (e.start(capability), e.start_manual(capability));
            &&& a.level_idx == 0 && a.freq_idx == 0 && m.level_idx == 0 && m.freq_idx == 0
            &&& a.session_active && m.session_active
            &&& a.boost_mode is Auto && m.boost_mode is Off
            &&& a.is_in_mode(ResumeMode::Automatic) && m.is_in_mode(ResumeMode::Manual)
            &&& a.capability == capability && m.capability == capability
            &&& a.pending_sends == e.pending_sends.push(PendingSend::CalibrationState)
            &&& m.pending_sends == e.pending_sends.push(PendingSend::CalibrationState)
            &&& !m.manual_send_pending
            &&& a.hard_limits == e.hard_limits && m.hard_limits == e.hard_limits
            &&& a.cal_cells == e.cal_cells && m.cal_cells == e.cal_cells
            &&& a.state matches EngineState::AwaitingFreqConfirm { freq_mhz, .. } ==> freq_mhz
                == e.frequencies[0]
            &&& !(a.state is AwaitingFreqConfirm) ==> a.pending_frequency_push == Some(
                e.frequencies[0],
            )
        }),
{
}

/// Without levels or without frequencies nothing starts.
pub proof fn law_nothing_to_sweep_starts_nothing(e: EngineView, capability: CapabilityView)
    requires
        e.levels.len() == 0 || e.frequencies.len() == 0,
    ensures
        e.start(capability) == (EngineView { state: EngineState::Idle, ..e }),
        e.start_manual(capability) == (EngineView { state: EngineState::Idle, ..e }),
{
}

/// A sweep that was made and not started is idle, knows nothing and has everything to do.
pub proof fn law_a_new_sweep_has_all_to_do(
    levels: Seq<u8>,
    frequencies: Seq<u16>,
    inverted: bool,
    targets: Map<u8, u16>,
    hz: u32,
    level: u8,
)
    requires
        levels.len() * frequencies.len() * 2 <= usize::MAX,
    ensures
        ({
            let e = EngineView::fresh(levels, frequencies, inverted, targets, hz);
            &&& !e.is_active()
            &&& e.levels == levels && e.frequencies == frequencies && e.targets == targets
            &&& e.sign_inverted == inverted
            &&& e.level_idx == 0 && e.freq_idx == 0
            &&& e.total_steps == 2 * (levels.len() * frequencies.len())
            &&& e.completed_steps == 0
            &&& e.sweep_hz <= 10 && e.sweep_hz <= hz && (e.sweep_hz == 10 || e.sweep_hz == hz)
            &&& levels.contains(level) ==> e.level_status[level] is Pending
            &&& e.level_status.contains_key(level) ==> levels.contains(level)
            &&& e.pending_sends.len() == 0
            &&& e.pending_result is None
            &&& e.hard_limits.len() == 0 && e.cal_cells.len() == 0 && e.det_cells.len() == 0
            &&& !e.session_active && !e.manual_send_pending && !e.pa_enable_settle_pending
            &&& e.last_send is None && e.unresponsive_since is None
            &&& e.last_boost_on is None && e.boost_settle_until is None
        }),
{
}

/// A meter that can be set is set: to the frequency itself, or to one of its bands than which
/// none is nearer. For a meter that cannot, the user is asked, and the frequency is pushed
/// only after that.
pub proof fn law_a_meter_is_set_or_asked_for(
    e: EngineView,
    freq_mhz: u16,
    resume: ResumeMode,
    i: int,
)
    ensures
        ({
            let r = e.begin_frequency(freq_mhz, resume);
            let asked = r.state == (EngineState::AwaitingFreqConfirm { freq_mhz, resume });
            let goes_on = r.state == resumed(resume) && r.pending_frequency_push == Some(freq_mhz);
            &&& asked || goes_on
            &&& asked ==> r.pending_frequency_push == e.pending_frequency_push
            &&& e.capability is Manual ==> asked
            &&& e.capability is FullyProgrammable ==> goes_on && r.pending_meter_frequency == Some(
                freq_mhz as u32,
            )
            &&& e.capability is ProgrammableBand ==> goes_on && r.pending_meter_frequency is Some
            &&& e.capability matches CapabilityView::ProgrammableBand { bands_mhz } ==> (0 <= i
                < bands_mhz.len() ==> bands_mhz.contains(r.pending_meter_frequency->0)
                && no_farther(r.pending_meter_frequency->0, bands_mhz[i], freq_mhz))
            &&& e.capability is Manual || e.capability is ManualBand ==> r.pending_meter_frequency
                == e.pending_meter_frequency
            &&& r.is_in_mode(resume)
            &&& r == (EngineView {
                state: r.state,
                pending_frequency_push: r.pending_frequency_push,
                pending_meter_frequency: r.pending_meter_frequency,
                last_prompted_band: r.last_prompted_band,
                ..e
            })
        }),
{
    match e.capability {
        CapabilityView::ProgrammableBand { bands_mhz } => {
            if 0 <= i < bands_mhz.len() {
                law_no_band_is_nearer(bands_mhz, freq_mhz as u32, i);
                let n = nearest_index(bands_mhz, freq_mhz as u32);
                assert(bands_mhz[n] == nearest(bands_mhz, freq_mhz as u32));
            }
        },
        _ => {},
    }
}

/// The frequency `a` is no farther from `f` than `b` is.
pub open spec fn no_farther(a: u32, b: u32, f: u16) -> bool {
    let (x, y) = (a as int - f as int, b as int - f as int);
    (y <= x <= -y) || (-y <= x <= y)
}

/// A meter whose band the user sets is asked for once for each band: the user is asked where
/// the band of the frequency is another than the one that was last asked for, and that band
/// is then the last one.
pub proof fn law_a_band_is_asked_for_once(
    e: EngineView,
    bands: Seq<u32>,
    freq_mhz: u16,
    resume: ResumeMode,
    i: int,
)
    requires
        e.capability == (CapabilityView::ManualBand { bands_mhz: bands }),
        0 <= i < bands.len(),
    ensures
        ({
            let r = e.begin_frequency(freq_mhz, resume);
            let again = r.begin_frequency(freq_mhz, resume);
            &&& r.last_prompted_band matches Some(b) && bands.contains(b) && no_farther(
                b,
                bands[i],
                freq_mhz,
            )
            &&& r.state is AwaitingFreqConfirm <==> r.last_prompted_band != e.last_prompted_band
            &&& !(again.state is AwaitingFreqConfirm)
            &&& again.last_prompted_band == r.last_prompted_band
        }),
{
    law_no_band_is_nearer(bands, freq_mhz as u32, i);
    let n = nearest_index(bands, freq_mhz as u32);
    assert(bands[n] == nearest(bands, freq_mhz as u32));
}

/// The point that the user accepts is reported with the bias that the user set and what the
/// detector reads, and marked; manual mode goes on at the next point, if there is one.
#[verifier::rlimit(60)]
pub proof fn law_an_accepted_point_is_reported(e: EngineView, detector_mv: u16)
    requires
        e.wf(),
    ensures
        !(e.state is Manual) ==> e.manual_next(detector_mv) == e,
        e.state is Manual ==> {
            let r = e.manual_next(detector_mv);
            let level = e.levels[e.level_idx as int];
            let key = (level, e.freq_idx);
            &&& r.pending_result == Some(
                SweepResult {
                    level,
                    freq_idx: e.freq_idx,
                    vbias_mv: Some(e.manual_dac_mv as u16),
                    detector_mv: Some(detector_mv),
                    success: true,
                    pa_failure: false,
                    not_settled: false,
                },
            )
            &&& r.cal_cells == e.cal_cells.insert(key, status_or_limit(e, false, CellStatus::Manual))
            &&& r.det_cells == e.det_cells.insert(key, status_or_limit(e, true, CellStatus::Manual))
            &&& r.level_status == e.level_status.insert(level, LevelStatusView::Done)
            &&& r.completed_steps == e.completed_steps.wrapping_add(2)
            &&& e.has_next() ==> same_place(e.at_next(), r) && r.is_in_mode(ResumeMode::Manual)
                && e.next_point() == Some((r.levels[r.level_idx as int], r.freq_idx))
                && r.pending_sends == e.pending_sends
            &&& !e.has_next() ==> !r.is_active() && same_place(e, r) && e.next_point() is None
            &&& r.manual_dac_mv == e.manual_dac_mv
        },
{
    if e.state is Manual {
        let r = e.manual_next(detector_mv);
        let key = (e.levels[e.level_idx as int], e.freq_idx);
        assert(r.cal_cells =~= e.cal_cells.insert(key, r.cal_cells[key]));
        assert(r.det_cells =~= e.det_cells.insert(key, r.det_cells[key]));
    }
}

/// Leaving manual mode ends the sweep where it is: pit mode at the point, a closed session.
pub proof fn law_leaving_manual_mode_makes_the_vtx_safe(e: EngineView)
    requires
        e.wf(),
        e.levels.len() > 0,
        e.frequencies.len() > 0,
    ensures
        ({
            let r = e.exit_manual();
            &&& r == (EngineView {
                state: EngineState::Idle,
                session_active: false,
                boost_mode: BoostMode::Auto,
                pending_frequency_push: None,
                manual_send_pending: false,
                pending_sends: r.pending_sends,
                ..e
            })
            &&& r.pending_sends == e.pending_sends + seq![
                PendingSend::SafeState {
                    freq_mhz: e.frequencies[e.freq_idx as int],
                    power: e.levels[e.level_idx as int],
                },
                PendingSend::CalibrationState,
            ]
        }),
{
    assert(e.exit_manual().pending_sends =~= e.pending_sends + seq![
        PendingSend::SafeState {
            freq_mhz: e.frequencies[e.freq_idx as int],
            power: e.levels[e.level_idx as int],
        },
        PendingSend::CalibrationState,
    ]);
}

/// After an abort every level that was done is done, and every other is aborted. What was to
/// be sent is dropped for pit mode at the point where the sweep was, and nothing else of
/// what was found changes.
pub proof fn law_an_abort_keeps_what_is_done(e: EngineView, level: u8)
    requires
        e.wf(),
        e.levels.len() > 0,
        e.frequencies.len() > 0,
        e.level_status.contains_key(level),
    ensures
        ({
            let r = e.abort();
            &&& r.level_status.contains_key(level)
            &&& e.level_status[level] is Done <==> r.level_status[level] is Done
            &&& r.level_status[level] is Done || r.level_status[level] is Aborted
            &&& same_place(e, r)
            &&& r.cal_cells == e.cal_cells && r.det_cells == e.det_cells
            &&& r.hard_limits == e.hard_limits
            &&& r.pending_result == e.pending_result
            &&& r.completed_steps == e.completed_steps
            &&& !r.is_active() && !r.session_active && !r.manual_send_pending
            &&& r.pending_frequency_push is None
            &&& r.pending_sends == seq![
                PendingSend::SafeState {
                    freq_mhz: e.frequencies[e.freq_idx as int],
                    power: e.levels[e.level_idx as int],
                },
                PendingSend::CalibrationState,
            ]
        }),
{
}

/// The status of a cell that was skipped.
pub open spec fn skipped_or_limit(cells: Map<(u8, usize), CellStatus>, key: (u8, usize)) -> bool {
    cells.contains_key(key) && (cells[key] == CellStatus::Skipped || cells[key]
        == CellStatus::LimitHit)
}

/// Skipping marks what was still to be done of a point: of the first one the scans that were
/// not over, of any other both, each counted as a step.
pub proof fn law_a_skip_marks_what_was_to_be_done(e: EngineView, first: bool)
    requires
        e.level_idx < e.levels.len(),
        e.state is Automatic || e.state is Manual,
    ensures
        ({
            let r = e.skip_mark(first);
            let level = e.levels[e.level_idx as int];
            let key = (level, e.freq_idx);
            let bias = !first || e.state is Manual || in_scan_pa(e) is Some;
            let detector = bias || in_scan_detector(e) is Some;
            &&& r.cal_cells == if bias {
                e.cal_cells.insert(key, status_or_limit(e, false, CellStatus::Skipped))
            } else {
                e.cal_cells
            }
            &&& r.det_cells == if detector {
                e.det_cells.insert(key, status_or_limit(e, true, CellStatus::Skipped))
            } else {
                e.det_cells
            }
            &&& r.completed_steps == e.completed_steps.wrapping_add(
                if bias {
                    2
                } else if detector {
                    1
                } else {
                    0
                },
            )
            &&& r.level_status == e.level_status.insert(level, LevelStatusView::Skipped)
            &&& r == (EngineView {
                cal_cells: r.cal_cells,
                det_cells: r.det_cells,
                completed_steps: r.completed_steps,
                level_status: r.level_status,
                ..e
            })
        }),
{
    let r = e.skip_mark(first);
    let key = (e.levels[e.level_idx as int], e.freq_idx);
    assert(r.cal_cells =~= e.cal_cells || r.cal_cells =~= e.cal_cells.insert(
        key,
        r.cal_cells[key],
    ));
    assert(r.det_cells =~= e.det_cells || r.det_cells =~= e.det_cells.insert(
        key,
        r.det_cells[key],
    ));
}

proof fn lemma_marks_stay(e: EngineView, done: nat, count: nat, key: (u8, usize))
    requires
        done > 0,
        skipped_or_limit(e.det_cells, key),
        skipped_or_limit(e.cal_cells, key),
    ensures
        skipped_or_limit(e.skip_run(done, count).0.det_cells, key),
        skipped_or_limit(e.skip_run(done, count).0.cal_cells, key),
    decreases count - done,
{
    if done < count {
        let marked = e.skip_mark(false);
        if marked.has_next() {
            lemma_marks_stay(marked.at_next(), done + 1, count, key);
        }
    }
}

proof fn lemma_same_place_same_points(a: EngineView, b: EngineView, k: nat)
    requires
        same_place(a, b),
        a.levels == b.levels,
        a.frequencies == b.frequencies,
    ensures
        same_place(points_on(a, k), points_on(b, k)),
        points_on(a, k).levels == a.levels,
        points_on(b, k).levels == a.levels,
    decreases k,
{
    if k > 0 {
        lemma_same_place_same_points(a.at_next(), b.at_next(), (k - 1) as nat);
    }
}

proof fn lemma_passed_points_are_marked(e: EngineView, done: nat, count: nat, k: nat)
    requires
        done > 0,
        k < count - done,
        e.skip_run(done, count).1 is Some,
    ensures
        skipped_or_limit(
            e.skip_run(done, count).0.det_cells,
            (points_on(e, k).level(), points_on(e, k).freq_idx),
        ),
        skipped_or_limit(
            e.skip_run(done, count).0.cal_cells,
            (points_on(e, k).level(), points_on(e, k).freq_idx),
        ),
    decreases count - done,
{
    let marked = e.skip_mark(false);
    let next = marked.at_next();
    if k == 0 {
        lemma_marks_stay(next, done + 1, count, (e.level(), e.freq_idx));
    } else {
        lemma_passed_points_are_marked(next, done + 1, count, (k - 1) as nat);
        lemma_same_place_same_points(next, e.at_next(), (k - 1) as nat);
    }
}

/// Every point that a skip passes over after the first is marked as skipped, its bias and
/// its detector, unless it hit a limit before.
pub proof fn law_points_that_are_skipped_are_marked(e: EngineView, count: nat, k: nat)
    requires
        e.can_skip(count),
        0 < k < count,
        e.skip_run(0, count).1 is Some,
    ensures
        ({
            let r = e.skip_multiple(count);
            let p = points_on(e, k);
            let key = (p.levels[p.level_idx as int], p.freq_idx);
            &&& skipped_or_limit(r.cal_cells, key)
            &&& skipped_or_limit(r.det_cells, key)
        }),
{
    let marked = e.skip_mark(true);
    let next = marked.at_next();
    lemma_passed_points_are_marked(next, 1, count, (k - 1) as nat);
    lemma_same_place_same_points(next, e.at_next(), (k - 1) as nat);
}

/// A skip of no points, or outside a scan and manual mode, does nothing. One that goes
/// beyond the last point ends the sweep there: with pit mode at that point, and a closed
/// session. Any other leaves the sweep in its mode.
#[verifier::rlimit(60)]
pub proof fn law_a_skip_ends_the_sweep_or_goes_on(e: EngineView, count: nat)
    ensures
        ({
            let r = e.skip_multiple(count);
            let works = count > 0 && (e.state is Manual || e.state is Automatic);
            &&& !works ==> r == e && e.skip_multiple_result(count) is None
            &&& works && e.skip_run(0, count).1 is None ==> {
                &&& r == e.skip_run(0, count).0
                &&& e.skip_multiple_result(count) is None
            }
            &&& works && e.skip_run(0, count).1 is Some ==> {
                &&& r.is_in_mode(if e.state is Manual {
                    ResumeMode::Manual
                } else {
                    ResumeMode::Automatic
                })
                &&& e.skip_multiple_result(count) == if e.state is Manual {
                    Some((r.levels[r.level_idx as int], r.freq_idx))
                } else {
                    None
                }
            }
        }),
{
}

proof fn lemma_skip_end(e: EngineView, done: nat, count: nat)
    requires
        e.skip_run(done, count).1 is None,
    ensures
        ({
            let r = e.skip_run(done, count).0;
            &&& r.state is Idle
            &&& !r.session_active
            &&& r.boost_mode is Auto
            &&& r.levels == e.levels
            &&& r.frequencies == e.frequencies
            &&& !r.has_next()
            &&& r.pending_sends == e.pending_sends + seq![
                r.safe_state(),
                PendingSend::CalibrationState,
            ]
        }),
    decreases count - done,
{
    if done < count {
        let marked = e.skip_mark(done == 0);
        if marked.has_next() {
            lemma_skip_end(marked.at_next(), done + 1, count);
        } else {
            assert(e.skip_run(done, count).0.pending_sends =~= e.pending_sends + seq![
                marked.safe_state(),
                PendingSend::CalibrationState,
            ]);
        }
    }
}

/// A skip beyond the last point ends the sweep at the last point: with pit mode there, and a
/// closed session.
pub proof fn law_a_skip_beyond_the_end_makes_the_vtx_safe(e: EngineView, count: nat)
    requires
        e.can_skip(count),
        e.skip_run(0, count).1 is None,
    ensures
        ({
            let r = e.skip_multiple(count);
            &&& !r.is_active()
            &&& !r.session_active
            &&& r.boost_mode is Auto
            &&& !r.has_next()
            &&& r.pending_sends == e.pending_sends + seq![
                r.safe_state(),
                PendingSend::CalibrationState,
            ]
        }),
{
    lemma_skip_end(e, 0, count);
}

/// Pit mode is at the current point.
pub proof fn law_pit_mode_is_at_the_point(e: EngineView)
    requires
        e.wf(),
        e.levels.len() > 0,
        e.frequencies.len() > 0,
    ensures
        e.safe_state() == (PendingSend::SafeState {
            freq_mhz: e.frequencies[e.freq_idx as int],
            power: e.levels[e.level_idx as int],
        }),
{
}

/// Whether the VTX has been silent too long is told from when it was first found so.
pub proof fn law_silence_has_half_a_second(e: EngineView, since: u64, now: u64)
    requires
        e.unresponsive_since == Some(since),
        since <= now,
    ensures
        e.silence_is_over_limit(now) <==> now - since > 500_000_000,
        !(EngineView { unresponsive_since: None, ..e }).silence_is_over_limit(now),
{
}

/// A loss is told by who is silent.
pub proof fn law_a_loss_says_who_is_silent(vtx_ready: bool, meter_ready: bool)
    requires
        !vtx_ready || !meter_ready,
    ensures
        !vtx_ready <==> !(EngineView::loss_reason(vtx_ready, meter_ready) is Meter),
        !meter_ready <==> !(EngineView::loss_reason(vtx_ready, meter_ready) is Vtx),
{
}

/// Where the VTX falls silent, the cell of what was under way is marked as having hit a
/// limit; where only the meter does, none is. The sweep knows where it was, and stays there.
pub proof fn law_a_lost_vtx_marks_what_was_under_way(
    e: EngineView,
    reason: ConnectionLossReason,
    mv: i32,
)
    requires
        e.wf(),
        e.state is Automatic || e.state is Manual,
    ensures
        ({
            let r = e.connection_lost(reason, mv);
            let key = (e.levels[e.level_idx as int], e.freq_idx);
            let bias = e.state is Manual || in_scan_pa(e) is Some;
            let detector = in_scan_detector(e) is Some;
            &&& r.state == (EngineState::ConnectionLost {
                level: e.levels[e.level_idx as int],
                freq_mhz: e.frequencies[e.freq_idx as int],
                vbias_mv_at_loss: mv,
                reason,
                resume: if e.state is Manual {
                    ResumeMode::Manual
                } else {
                    ResumeMode::Automatic
                },
            })
            &&& r.cal_cells == if bias && !(reason is Meter) {
                e.cal_cells.insert(key, CellStatus::LimitHit)
            } else {
                e.cal_cells
            }
            &&& r.det_cells == if detector && !(reason is Meter) {
                e.det_cells.insert(key, CellStatus::LimitHit)
            } else {
                e.det_cells
            }
            &&& r == (EngineView {
                state: r.state,
                cal_cells: r.cal_cells,
                det_cells: r.det_cells,
                ..e
            })
        }),
{
}

/// A link that is lost pauses an automatic sweep at its bias, and no other.
pub proof fn law_a_lost_link_pauses_an_automatic_sweep(e: EngineView, reason: ConnectionLossReason)
    requires
        e.wf(),
    ensures
        !(e.state is Automatic) ==> e.force_connection_lost(reason) == e,
        e.state is Automatic ==> {
            let r = e.force_connection_lost(reason);
            &&& r.state matches EngineState::ConnectionLost {
                level,
                freq_mhz,
                vbias_mv_at_loss,
                reason: why,
                resume,
            } && level == e.levels[e.level_idx as int] && freq_mhz
                == e.frequencies[e.freq_idx as int] && why == reason && resume is Automatic
                && vbias_mv_at_loss == match e.state {
                EngineState::Automatic(AutomaticStep::ScanPa(st)) => st.vbias_mv,
                EngineState::Automatic(AutomaticStep::ScanDetector(st)) => st.vbias_mv,
                _ => 0,
            }
            &&& r.unresponsive_since is None
            &&& same_place(e, r)
        },
{
}

/// When both ends answer again after the VTX had been silent, its level is limited to fifty
/// millivolts less power than where it fell silent, as far as the DAC goes; a user who sets
/// the bias by hand is put there too. No other level is touched.
pub proof fn law_a_limit_is_fifty_millivolts_back(
    e: EngineView,
    level: u8,
    freq_mhz: u16,
    lost_at: i32,
    reason: ConnectionLossReason,
    resume: ResumeMode,
)
    requires
        in_range(lost_at),
    ensures
        ({
            let r = e.auto_resume(level, freq_mhz, lost_at, reason, resume);
            &&& r.pending_frequency_push == Some(freq_mhz)
            &&& r.unresponsive_since is None
            &&& r.is_in_mode(resume)
            &&& same_place(e, r)
            &&& r.cal_cells == e.cal_cells && r.det_cells == e.det_cells
            &&& reason is Meter ==> r.hard_limits == e.hard_limits && r.manual_dac_mv
                == e.manual_dac_mv && r.manual_send_pending == e.manual_send_pending
            &&& !(reason is Meter) ==> {
                let limit = r.hard_limits[level];
                let back = gain(e.sign_inverted, limit as int, lost_at as int);
                &&& r.hard_limits == e.hard_limits.insert(level, limit)
                &&& 0 <= limit <= 3300
                &&& 0 <= back <= 50
                &&& back < 50 ==> limit == if e.sign_inverted {
                    3300i32
                } else {
                    0
                }
                &&& resume is Manual ==> r.manual_dac_mv == limit && r.manual_send_pending
                &&& !(resume is Manual) ==> r.manual_dac_mv == e.manual_dac_mv
            }
        }),
{
}

/// The bias that the user sets is kept within the range of the DAC, and is to be sent.
pub proof fn law_a_bias_set_by_hand_is_within_the_range(e: EngineView, mv: i32)
    ensures
        ({
            let r = e.set_manual_dac(mv);
            &&& 0 <= r.manual_dac_mv <= 3300
            &&& 0 <= mv <= 3300 ==> r.manual_dac_mv == mv
            &&& mv < 0 ==> r.manual_dac_mv == 0
            &&& mv > 3300 ==> r.manual_dac_mv == 3300
            &&& r == (EngineView {
                manual_dac_mv: r.manual_dac_mv,
                manual_send_pending: true,
                ..e
            })
        }),
{
}

/// The amplifier is switched as the user says, with the next bias that is sent.
pub proof fn law_the_user_switches_the_amplifier(e: EngineView, on: bool)
    ensures
        e.set_pa_boost(on).boost_mode is On <==> on,
        e.set_pa_boost(on).boost_mode is Off <==> !on,
        e.set_pa_boost(on) == (EngineView {
            boost_mode: e.set_pa_boost(on).boost_mode,
            manual_send_pending: true,
            ..e
        }),
{
}

/// In manual mode nothing is sent but the frequency of the point, where that is new, and the
/// bias that the user set, once, and not too soon after the last.
pub proof fn law_manual_mode_sends_what_the_user_set(e: EngineView, inp: PollInput)
    requires
        e.wf(),
        e.state is Manual,
        e.pending_sends.len() == 0,
        inp.can_send,
        inp.vtx_ready,
        inp.meter_ready,
    ensures
        ({
            let (r, outcome) = e.poll(inp);
            &&& r.state is Manual && same_place(e, r)
            &&& match e.pending_frequency_push {
                Some(freq_mhz) => outcome == (PollOutcome::Send {
                    message: Message::VtxConfig { freq_mhz, power: e.levels[0], pitmode: false },
                    after: AfterSend::RequestVtxConfig,
                }) && r.pending_frequency_push is None,
                None => if e.manual_send_pending && !e.throttled(inp.now) {
                    outcome == (PollOutcome::Send {
                        message: Message::Calibration {
                            level: e.levels[e.level_idx as int],
                            mv: Some(e.manual_dac_mv as u16),
                            session_active: e.session_active,
                            boost_mode: e.boost_mode,
                        },
                        after: AfterSend::Manual,
                    })
                } else {
                    outcome is Nothing
                },
            }
        }),
{
    reveal(EngineView::poll_dispatch);
}

/// A new frequency is pushed to the VTX before a scan goes on, with the power of the first
/// level and without pit mode; what the VTX uses is asked for next.
pub proof fn law_a_new_frequency_goes_before_the_scan(e: EngineView, inp: PollInput, freq_mhz: u16)
    requires
        e.wf(),
        e.state is Automatic,
        e.pending_sends.len() == 0,
        e.pending_frequency_push == Some(freq_mhz),
        inp.can_send,
        inp.vtx_ready,
        inp.meter_ready,
    ensures
        e.poll(inp).1 == (PollOutcome::Send {
            message: Message::VtxConfig { freq_mhz, power: e.levels[0], pitmode: false },
            after: AfterSend::RequestVtxConfig,
        }),
        e.poll(inp).0.pending_frequency_push is None,
        e.poll(inp).0.state is Automatic,
        same_place(e, e.poll(inp).0),
        e.sent(AfterSend::RequestVtxConfig, inp.now) == (EngineView {
            pending_sends: e.pending_sends.push(PendingSend::RequestVtxConfig),
            ..e
        }),
{
    reveal(EngineView::poll_dispatch);
}

/// What waits to be sent says what it stands for: pit mode where it was asked for, the
/// session and the amplifier as they are, the least bias with the amplifier off, the
/// amplifier back with no bias. What the VTX uses is asked for after pit mode only.
pub proof fn law_what_waits_says_what_it_stands_for(
    e: EngineView,
    send: PendingSend,
    inp: PollInput,
)
    requires
        e.pending_sends.len() > 0,
        e.pending_sends[0] == send,
        inp.can_send,
    ensures
        ({
            let message = e.pending_message(send);
            &&& e.poll(inp).1 matches PollOutcome::Send { after, .. } && (after
                == AfterSend::RequestVtxConfig <==> send is SafeState) && (after
                == AfterSend::Nothing <==> !(send is SafeState))
            &&& send matches PendingSend::SafeState { freq_mhz, power } ==> message
                == (Message::VtxConfig { freq_mhz, power, pitmode: true })
            &&& send is RequestVtxConfig ==> message is RequestVtxConfig
            &&& send is CalibrationState ==> message == (Message::CalibrationState {
                session_active: e.session_active,
                boost_mode: e.boost_mode,
            })
            &&& send matches PendingSend::DacLow { level, vbias_mv } ==> message
                == (Message::Calibration {
                level,
                mv: Some(vbias_mv),
                session_active: e.session_active,
                boost_mode: BoostMode::Off,
            })
            &&& send matches PendingSend::RestoreBoost { level } ==> message
                == (Message::Calibration {
                level,
                mv: None,
                session_active: e.session_active,
                boost_mode: BoostMode::On,
            })
        }),
{
    reveal(EngineView::poll_dispatch);
}

proof fn lemma_a_bias_is_judged(d: EngineView, inp: PollInput, st: ScanPaState)
    requires
        d.boost_settle_until matches Some(t) ==> inp.now >= t,
        st.wait matches Some(w) && inp.reading_seq >= w.start_seq + w.needed,
        st.phase is Fine ==> watch_peak(st, inp) is Some,
        st.phase is Fine ==> (st.fine_settle_until matches Some(t) ==> inp.now >= t),
    ensures
        d.tick_scan_pa(inp, st) == (
            EngineView { boost_settle_until: None, ..d }.judge_scan_pa(
                inp,
                if st.phase is Fine {
                    ScanPaState { fine_settle_until: None, ..watch_peak(st, inp)->0 }
                } else {
                    st
                },
            ),
            PollOutcome::Nothing,
        ),
{
    if st.phase is Fine {
        assert(watch_peak(st, inp)->0.fine_settle_until == st.fine_settle_until);
    }
}

/// A turn with the samples that a scan for a bias waited for judges them, once what was to
/// settle has.
pub proof fn law_a_turn_judges_what_a_bias_waited_for(
    e: EngineView,
    inp: PollInput,
    st: ScanPaState,
)
    requires
        e.state == EngineState::Automatic(AutomaticStep::ScanPa(st)),
        e.pending_sends.len() == 0,
        e.pending_frequency_push is None,
        e.boost_settle_until matches Some(t) ==> inp.now >= t,
        inp.can_send,
        inp.vtx_ready,
        inp.meter_ready,
        inp.latest_reading is None,
        st.wait matches Some(w) && inp.reading_seq >= w.start_seq + w.needed,
        st.phase is Fine ==> watch_peak(st, inp) is Some,
        st.phase is Fine ==> (st.fine_settle_until matches Some(t) ==> inp.now >= t),
    ensures
        ({
            let d = EngineView {
                state: EngineState::Idle,
                unresponsive_since: None,
                boost_settle_until: None,
                ..e
            };
            e.poll(inp) == (
                d.judge_scan_pa(
                    inp,
                    if st.phase is Fine {
                        ScanPaState { fine_settle_until: None, ..watch_peak(st, inp)->0 }
                    } else {
                        st
                    },
                ),
                PollOutcome::Nothing,
            )
        }),
{
    let judged = if st.phase is Fine {
        ScanPaState { fine_settle_until: None, ..watch_peak(st, inp)->0 }
    } else {
        st
    };
    let c = EngineView { state: EngineState::Idle, unresponsive_since: None, ..e };
    let d = EngineView { boost_settle_until: None, ..c };
    lemma_a_bias_is_judged(c, inp, st);
    assert(e.note_boost(inp) == e);
    assert(e.poll_dispatch(inp) == c.tick_scan_pa(inp, st)) by {
        reveal(EngineView::poll_dispatch);
    }
    let n = d.judge_scan_pa(inp, judged);
    assert(EngineView { state: state_with_reading(n.state, None), ..n } =~= n);
}

/// A turn with the samples and the reading that a search for the detector waited for judges
/// them, with the detector voltage of that reading.
#[verifier::rlimit(60)]
pub proof fn law_a_turn_judges_what_a_detector_waited_for(
    e: EngineView,
    inp: PollInput,
    st: ScanDetectorState,
)
    requires
        e.state == EngineState::Automatic(AutomaticStep::ScanDetector(st)),
        e.pending_sends.len() == 0,
        e.pending_frequency_push is None,
        e.boost_settle_until is None,
        inp.can_send,
        inp.vtx_ready,
        inp.meter_ready,
        inp.latest_reading is None,
        st.wait matches Some(w) && inp.reading_seq >= w.start_seq + w.needed,
        st.last_reading is Some,
    ensures
        ({
            let d = EngineView { state: EngineState::Idle, unresponsive_since: None, ..e };
            e.poll(inp) == d.judge_scan_detector(inp, st, st.last_reading->0.detector_mv)
        }),
{
    reveal(EngineView::poll_dispatch);
    let d = EngineView { state: EngineState::Idle, unresponsive_since: None, ..e };
    assert(d =~= (EngineView { boost_settle_until: None, ..d }));
    assert(e.note_boost(inp) == e);
}

/// A search for the detector remembers the newest reading of the VTX for when it judges.
#[verifier::rlimit(60)]
pub proof fn law_a_detector_remembers_the_newest_reading(
    e: EngineView,
    inp: PollInput,
    st: ScanDetectorState,
)
    requires
        inp.latest_reading is Some,
        in_scan_detector(e.poll(inp).0) == Some(st),
    ensures
        st.last_reading == inp.latest_reading,
{
}

/// What is under way: in manual mode the bias that the user set, in a scan for a bias that
/// bias, in a search for the detector what it last read.
pub proof fn law_what_is_under_way_is_shown(e: EngineView)
    requires
        e.wf(),
    ensures
        ({
            let level = e.levels[e.level_idx as int];
            &&& e.state is Manual ==> e.current_step() == Some(
                CurrentStep {
                    level,
                    freq_idx: e.freq_idx,
                    vbias_mv: Some(e.manual_dac_mv),
                    detector_mv: None,
                    cal_is_current: true,
                    det_is_current: true,
                },
            )
            &&& in_scan_pa(e) matches Some(st) ==> e.current_step() == Some(
                CurrentStep {
                    level,
                    freq_idx: e.freq_idx,
                    vbias_mv: Some(st.vbias_mv),
                    detector_mv: None,
                    cal_is_current: true,
                    det_is_current: false,
                },
            )
            &&& in_scan_detector(e) matches Some(st) ==> e.current_step() == Some(
                CurrentStep {
                    level,
                    freq_idx: e.freq_idx,
                    vbias_mv: None,
                    detector_mv: match st.last_reading {
                        Some(r) => Some(r.detector_mv as i32),
                        None => None,
                    },
                    cal_is_current: false,
                    det_is_current: true,
                },
            )
            &&& !(e.state is Manual) && in_scan_pa(e) is None && in_scan_detector(e) is None
                ==> e.current_step() is None
        }),
{
}

/// An active sweep is in one of two modes, and stays in it through a prompt, a pause and the
/// way to another point.
pub proof fn law_a_sweep_keeps_its_mode(
    e: EngineView,
    mode: ResumeMode,
    reason: ConnectionLossReason,
    mv: i32,
)
    requires
        e.is_in_mode(mode),
    ensures
        e.is_active(),
        e.is_in_mode(ResumeMode::Manual) <==> !e.is_in_mode(ResumeMode::Automatic),
        e.confirm_frequency().is_in_mode(mode),
        (e.state is Automatic || e.state is Manual) ==> e.connection_lost(reason, mv).is_in_mode(
            mode,
        ),
        (e.state is Automatic || e.state is Manual) && e.has_next()
            ==> e.advance_position().is_in_mode(mode),
        !(EngineView { state: EngineState::Idle, ..e }).is_in_mode(mode),
{
}

/// Every message is one frame on the wire: what is set of the VTX as its configuration, with
/// a frequency and a power by themselves, and the bias of a level as a calibration request.
pub proof fn law_a_message_reads_back(message: Message, rest: Seq<u8>)
    ensures
        first_frame(None, message.bytes() + rest) matches Some((f, n)) && {
            &&& n == message.bytes().len()
            &&& match message {
                Message::VtxConfig { freq_mhz, power, pitmode } => {
                    let c = vtx_config_of(f.payload);
                    &&& f.function == 88 && !f.is_v2 && f.payload.len() == 15
                    &&& c.band == 0 && c.channel == 0 && c.power == power
                    &&& c.pitmode == pitmode && c.frequency_mhz == freq_mhz
                    &&& c.device_ready && c.vtx_table_available
                },
                Message::RequestVtxConfig => f.function == 88 && !f.is_v2 && f.payload.len() == 0,
                Message::CalibrationState { session_active, boost_mode } => {
                    &&& f.function == 0x4803 && f.is_v2
                    &&& f.payload.len() == 5
                    &&& f.payload[0] == 0 && le16(f.payload[1], f.payload[2]) == 0
                    &&& f.payload[3] == 1 <==> session_active
                    &&& f.payload[4] == match boost_mode {
                        BoostMode::Off => 0u8,
                        BoostMode::On => 1,
                        BoostMode::Auto => 2,
                    }
                },
                Message::Calibration { level, mv, session_active, boost_mode } => {
                    &&& f.function == 0x4803 && f.is_v2
                    &&& f.payload.len() == 5
                    &&& f.payload[0] == level
                    &&& le16(f.payload[1], f.payload[2]) == match mv {
                        Some(v) => v,
                        None => 0,
                    }
                    &&& f.payload[3] == 1 <==> session_active
                    &&& f.payload[4] == match boost_mode {
                        BoostMode::Off => 0u8,
                        BoostMode::On => 1,
                        BoostMode::Auto => 2,
                    }
                },
            }
        },
{
    let none: Seq<u8> = seq![];
    match message {
        Message::VtxConfig { freq_mhz, power, pitmode } => {
            let p = vtx_config_frequency_payload(freq_mhz, power, pitmode);
            law_command_v1_reads_back(function::VTX_CONFIG as u8, p, none, rest);
        },
        Message::RequestVtxConfig => {
            law_command_v1_reads_back(function::VTX_CONFIG as u8, none, none, rest);
        },
        Message::CalibrationState { session_active, boost_mode } => {
            let p = pa_calibration_request(0, None, session_active, boost_mode.byte());
            law_command_v2_reads_back(function::SET_PACALIBRATION, p, none, rest);
        },
        Message::Calibration { level, mv, session_active, boost_mode } => {
            let p = pa_calibration_request(
                level,
                mv,
                session_active,
                boost_mode.byte(),
            );
            law_command_v2_reads_back(function::SET_PACALIBRATION, p, none, rest);
        },
    }
    assert(none + message.bytes() + rest =~= message.bytes() + rest);
}

/// The way to the next point: within a frequency nothing is set anew, and with another
/// frequency the sweep turns to that one, by asking for it or by pushing it.
pub proof fn law_the_next_frequency_is_turned_to(e: EngineView)
    requires
        e.wf(),
        e.state is Automatic || e.state is Manual,
        e.has_next(),
        e.levels.len() <= usize::MAX,
        e.frequencies.len() <= usize::MAX,
    ensures
        ({
            let r = e.advance_position();
            if e.level_idx + 1 < e.levels.len() {
                &&& r == (EngineView {
                    level_idx: (e.level_idx + 1) as usize,
                    state: resumed(e.resume_mode()),
                    ..e
                })
            } else {
                let f = e.frequencies[e.freq_idx + 1];
                &&& r.level_idx == 0 && r.freq_idx == e.freq_idx + 1
                &&& r.state matches EngineState::AwaitingFreqConfirm { freq_mhz, .. } ==> freq_mhz
                    == f && r.pending_frequency_push == e.pending_frequency_push
                &&& !(r.state is AwaitingFreqConfirm) ==> r.pending_frequency_push == Some(f)
                    && r.state == resumed(e.resume_mode())
            }
        }),
{
}

proof fn lemma_crossing_is_another_frequency(e: EngineView, done: nat, count: nat)
    requires
        e.wf(),
        e.levels.len() > 0,
        e.frequencies.len() > 0,
        e.levels.len() <= usize::MAX,
        e.frequencies.len() <= usize::MAX,
    ensures
        e.skip_run(done, count).1 matches Some(c) ==> (c <==> e.skip_run(done, count).0.freq_idx
            != e.freq_idx),
        e.skip_run(done, count).1 is Some ==> e.skip_run(done, count).0.pending_frequency_push
            == e.pending_frequency_push,
        e.skip_run(done, count).1 is Some ==> e.skip_run(done, count).0.frequencies
            == e.frequencies,
    decreases count - done,
{
    if done < count {
        let marked = e.skip_mark(done == 0);
        if marked.has_next() {
            assert(e.levels.contains(e.level()));
            assert(marked.wf());
            law_points_are_swept_in_order(marked);
            lemma_crossing_is_another_frequency(marked.at_next(), done + 1, count);
            lemma_skipping_is_not_behind(marked.at_next(), done + 1, count);
        }
    }
}

/// A skip that ends at another frequency turns to it; one that does not leaves the frequency
/// as it is.
pub proof fn law_a_skip_turns_to_its_frequency(e: EngineView, count: nat)
    requires
        e.wf(),
        e.can_skip(count),
        e.levels.len() <= usize::MAX,
        e.frequencies.len() <= usize::MAX,
        e.skip_run(0, count).1 is Some,
    ensures
        ({
            let r = e.skip_multiple(count);
            let f = r.frequencies[r.freq_idx as int];
            if r.freq_idx == e.freq_idx {
                &&& !(r.state is AwaitingFreqConfirm)
                &&& r.pending_frequency_push == e.pending_frequency_push
            } else {
                &&& r.state matches EngineState::AwaitingFreqConfirm { freq_mhz, .. } ==> freq_mhz
                    == f
                &&& !(r.state is AwaitingFreqConfirm) ==> r.pending_frequency_push == Some(f)
            }
        }),
{
    lemma_crossing_is_another_frequency(e, 0, count);
}

/// While the link is busy a turn changes nothing but what the newest reading says.
pub proof fn law_a_busy_link_changes_nothing(e: EngineView, inp: PollInput)
    requires
        !inp.can_send,
        !(e.state is ConnectionLost),
    ensures
        ({
            let r = e.poll(inp).0;
            &&& r == (EngineView {
                state: r.state,
                last_boost_on: r.last_boost_on,
                boost_settle_until: r.boost_settle_until,
                pa_enable_settle_pending: r.pa_enable_settle_pending,
                ..e
            })
            &&& in_scan_detector(e) is None ==> r.state == e.state
            &&& inp.latest_reading is None ==> r == e
        }),
{
    reveal(EngineView::poll_dispatch);
}

/// Only a new frequency makes the link wait, for fifty milliseconds; after anything else that
/// a sweep sends, the next message may follow at once.
pub proof fn law_only_a_frequency_makes_the_link_wait(message: Message, link: MspLink, now: u64)
    requires
        link.free(now),
        now + 50_000_000 <= u64::MAX,
    ensures
        ({
            let l = link.after_sending(message.spec_kind(), now);
            &&& message is VtxConfig ==> l.can_send_at == now + 50_000_000 && !l.free(now)
            &&& !(message is VtxConfig) ==> l.free(now)
            &&& message.spec_kind() is Calibration <==> message is Calibration
        }),
{
}

} // verus!

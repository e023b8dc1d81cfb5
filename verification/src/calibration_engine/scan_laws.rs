//! What a scan makes of what it measures.

use vstd::prelude::*;
#[allow(unused_imports)]
use vstd::string::*;

use crate::calibration_engine::cells::CellStatus;
use crate::calibration_engine::model::{
    detector_phase_text,
    in_range,
    pa_phase_text,
    scan_detector_ok,
    scan_pa_ok,
    up,
    watch_peak,
    EngineView,
};
use crate::calibration_engine::types::{
    AfterSend,
    AutomaticStep,
    DetectorPoint,
    EngineState,
    LevelStatusView,
    Message,
    PollInput,
    PollOutcome,
    RollingAverage,
    SampleWait,
    ScanDetectorPhase,
    ScanDetectorState,
    ScanPaOutcome,
    ScanPaPhase,
    ScanPaState,
    SweepResult,
};
use crate::clock::{after, elapsed};
use crate::power::Power;
use crate::text::{decimal, signed_decimal};

verus! {

/// How far the bias `to` is from the bias `from` towards more power.
pub open spec fn gain(inverted: bool, from: int, to: int) -> int {
    if inverted {
        from - to
    } else {
        to - from
    }
}

/// The bias `by` millivolts from `from` towards more power.
pub open spec fn stronger(inverted: bool, from: int, by: int) -> int {
    if inverted {
        from - by
    } else {
        from + by
    }
}

pub open spec fn same_place(a: EngineView, b: EngineView) -> bool {
    a.level_idx == b.level_idx && a.freq_idx == b.freq_idx
}

pub open spec fn in_scan_pa(e: EngineView) -> Option<ScanPaState> {
    match e.state {
        EngineState::Automatic(AutomaticStep::ScanPa(st)) => Some(st),
        _ => None,
    }
}

pub open spec fn in_scan_detector(e: EngineView) -> Option<ScanDetectorState> {
    match e.state {
        EngineState::Automatic(AutomaticStep::ScanDetector(st)) => Some(st),
        _ => None,
    }
}

/// The level is swept for this power.
pub open spec fn aims_at(e: EngineView, mw: u16) -> bool {
    e.level_idx < e.levels.len() && e.targets.contains_pair(e.levels[e.level_idx as int], mw)
}

/// What is measured is at least the target.
pub open spec fn reaches(inp: PollInput, mw: u16) -> bool {
    Power::of_mw(mw).at_most(inp.samples.average)
}

/// The sweep after its outcome was carried out at `now`, where it wanted something sent.
pub open spec fn carried_out(turn: (EngineView, PollOutcome), now: u64) -> EngineView {
    match turn.1 {
        PollOutcome::Send { after, .. } => turn.0.sent(after, now),
        _ => turn.0,
    }
}

/// The biases that a level may have are those of the DAC up to its limit, on the side of
/// less power.
pub proof fn law_a_limit_bounds_the_power(e: EngineView, level: u8, mv: int)
    requires
        e.wf(),
    ensures
        e.allowed(level, mv) <==> 0 <= mv <= 3300 && (e.hard_limits.contains_key(level) ==> gain(
            e.sign_inverted,
            e.hard_limits[level] as int,
            mv,
        ) <= 0),
{
    if e.hard_limits.contains_key(level) {
        assert(in_range(e.hard_limits[level]));
    }
}

/// The first bias of a point is one that its level may have, and none that it may have
/// gives less power. A ramp begins there at once, or when the power has settled after the
/// amplifier was enabled; nothing is known yet of a bias with too little power.
pub proof fn law_a_point_begins_with_the_least_power(e: EngineView, now: u64, mv: int)
    requires
        e.wf(),
        e.levels.len() > 0,
    ensures
        ({
            let st = e.first_scan(now);
            &&& e.allowed(e.level(), st.vbias_mv as int)
            &&& e.allowed(e.level(), mv) ==> gain(e.sign_inverted, st.vbias_mv as int, mv) >= 0
            &&& st.phase == if e.pa_enable_settle_pending {
                ScanPaPhase::Settle
            } else {
                ScanPaPhase::CoarseRamp
            }
            &&& st.settle_started_instant == if e.pa_enable_settle_pending {
                Some(now)
            } else {
                None
            }
            &&& st.coarse_step_mv == 25
            &&& st.last_below_target_mv is None
            &&& st.fine_bound_mv is None
            &&& st.fine_highest_avg_mw is None
            &&& st.wait is None
            &&& !st.settle_timed_out
        }),
{
    law_a_limit_bounds_the_power(e, e.level(), e.first_scan(now).vbias_mv as int);
    law_a_limit_bounds_the_power(e, e.level(), mv);
}

/// Entering a point sends the bias that gives the least power, unless something was sent
/// just before, and the scan is then at that bias.
#[verifier::rlimit(60)]
pub proof fn law_entering_a_point_sends_its_first_bias(e: EngineView, inp: PollInput)
    requires
        e.wf(),
        e.levels.len() > 0,
        e.frequencies.len() > 0,
    ensures
        ({
            let turn = e.enter_point(inp);
            let first = e.first_scan(inp.now);
            &&& in_scan_pa(carried_out(turn, inp.now)) matches Some(st) && st.vbias_mv
                == first.vbias_mv && st.phase == first.phase
            &&& turn.1 is Nothing <==> e.throttled(inp.now)
            &&& turn.1 matches PollOutcome::Send { message, .. } ==> message
                == (Message::Calibration {
                level: e.levels[e.level_idx as int],
                mv: Some(first.vbias_mv as u16),
                session_active: e.session_active,
                boost_mode: e.boost_mode,
            })
            &&& same_place(e, turn.0)
            &&& turn.0.pending_result == e.pending_result
            &&& turn.0.completed_steps == e.completed_steps
        }),
{
    law_a_point_begins_with_the_least_power(e, inp.now, 0);
}

/// Two biases are sent with a tenth of a second between them.
pub proof fn law_biases_have_time_between_them(e: EngineView, last: u64, now: u64)
    requires
        e.last_send == Some(last),
        last <= now,
    ensures
        e.throttled(now) <==> now - last < 100_000_000,
        !(EngineView { last_send: None, ..e }).throttled(now),
{
}

/// While a search for a bias settles, no measurement moves the bias. The ramp begins where
/// the power has come down to the target, or a minute has passed; only the latter is
/// remembered as a time-out.
pub proof fn law_settling_keeps_the_bias(e: EngineView, inp: PollInput, st: ScanPaState, mw: u16)
    requires
        aims_at(e, mw),
        st.phase is Settle,
    ensures
        ({
            let r = e.judge_scan_pa(inp, st);
            let down = inp.samples.average.at_most(Power::of_mw(mw));
            let waited = st.settle_started_instant matches Some(t) ==> elapsed(t, inp.now)
                >= 60_000_000_000;
            &&& in_scan_pa(r) matches Some(next) && next == (ScanPaState {
                phase: if down || waited {
                    ScanPaPhase::CoarseRamp
                } else {
                    ScanPaPhase::Settle
                },
                settle_timed_out: next.settle_timed_out,
                settle_started_instant: next.settle_started_instant,
                wait: None,
                ..st
            }) && next.settle_timed_out == (st.settle_timed_out || (!down && waited))
            &&& r.pending_result == e.pending_result
            &&& r.pa_enable_settle_pending == (e.pa_enable_settle_pending && !(down || waited))
            &&& same_place(e, r)
        }),
{
}

/// As long as the power settles, what is judged leaves the scan at the bias with the least
/// power: so does the first measurement of the ramp find it there.
pub proof fn law_a_ramp_is_judged_from_the_least_power(
    e: EngineView,
    inp: PollInput,
    st: ScanPaState,
    mw: u16,
)
    requires
        e.wf(),
        aims_at(e, mw),
        st.phase is Settle,
        st.vbias_mv == e.first_scan(inp.now).vbias_mv,
    ensures
        in_scan_pa(e.judge_scan_pa(inp, st)) matches Some(next) && next.vbias_mv
            == e.first_scan(inp.now).vbias_mv && e.judge_scan_pa(inp, st).first_scan(
            inp.now,
        ).vbias_mv == next.vbias_mv,
{
}

/// A measurement of a ramp below the target raises the power by the step of the ramp, which
/// is halved where the power is near the target; the bias that was too low is remembered.
/// Where the level may not have the next bias, the search is given up at this one.
pub proof fn law_a_ramp_raises_the_power_step_by_step(
    e: EngineView,
    inp: PollInput,
    st: ScanPaState,
    mw: u16,
)
    requires
        aims_at(e, mw),
        scan_pa_ok(st),
        st.phase is CoarseRamp,
        !reaches(inp, mw),
    ensures
        ({
            let r = e.judge_scan_pa(inp, st);
            let near = inp.samples.near_target.at_most(inp.samples.average);
            let step = if near && st.coarse_step_mv > 1 {
                (st.coarse_step_mv / 2) as int
            } else {
                st.coarse_step_mv as int
            };
            let next = stronger(e.sign_inverted, st.vbias_mv as int, step);
            if e.allowed(e.level(), next) {
                &&& in_scan_pa(r) matches Some(n) && n == (ScanPaState {
                    vbias_mv: n.vbias_mv,
                    coarse_step_mv: n.coarse_step_mv,
                    last_below_target_mv: Some(st.vbias_mv),
                    coarse_steps_taken: n.coarse_steps_taken,
                    wait: None,
                    ..st
                }) && n.vbias_mv == next && n.coarse_step_mv == step
                &&& r.pending_result == e.pending_result
                &&& same_place(e, r)
            } else {
                &&& r == e.finish_scan_pa(st.vbias_mv, ScanPaOutcome::Uncalibrated)
                &&& r.pending_result matches Some(found) && !found.success
            }
        }),
{
    assert forall|n: int| #[trigger] (up(e.sign_inverted) * n) == gain(e.sign_inverted, 0, n) by {
        assert(-1 * n == -n && 1 * n == n);
    }
}

/// A measurement of a ramp that reaches the target turns it into a fine search from the
/// last bias that was below, which may go a quarter beyond the bias that was too high. It
/// begins with a time in which nothing is judged, and knows no peak yet.
#[verifier::rlimit(60)]
pub proof fn law_an_overshoot_begins_the_fine_search(
    e: EngineView,
    inp: PollInput,
    st: ScanPaState,
    mw: u16,
    below: i32,
)
    requires
        e.wf(),
        aims_at(e, mw),
        scan_pa_ok(st),
        e.allowed(e.level(), st.vbias_mv as int),
        st.phase is CoarseRamp,
        reaches(inp, mw),
        st.last_below_target_mv == Some(below),
    ensures
        ({
            let r = e.judge_scan_pa(inp, st);
            let margin = if st.vbias_mv < 4 {
                st.coarse_step_mv as int
            } else {
                (st.vbias_mv / 4) as int
            };
            &&& in_scan_pa(r) matches Some(n) && {
                &&& n.phase is Fine
                &&& n.vbias_mv == below
                &&& n.wait is None
                &&& n.fine_settle_until == Some(after(inp.now, 2_000_000_000))
                &&& n.fine_started_instant == Some(inp.now)
                &&& n.fine_started_at == inp.samples.newest_at
                &&& n.fine_highest_avg_mw is None
                &&& n.fine_bound_mv matches Some(bound) && {
                    let reach = gain(e.sign_inverted, st.vbias_mv as int, bound as int);
                    &&& e.allowed(e.level(), bound as int)
                    &&& 0 <= reach <= margin
                    &&& reach < margin ==> !e.allowed(
                        e.level(),
                        stronger(e.sign_inverted, bound as int, 1),
                    )
                }
            }
            &&& r.pending_result == e.pending_result
            &&& same_place(e, r)
        }),
{
    law_a_limit_bounds_the_power(e, e.level(), st.vbias_mv as int);
    assert(st.vbias_mv * 25 / 100 == st.vbias_mv / 4);
    let n = in_scan_pa(e.judge_scan_pa(inp, st))->0;
    law_a_limit_bounds_the_power(e, e.level(), n.fine_bound_mv->0 as int);
    law_a_limit_bounds_the_power(
        e,
        e.level(),
        stronger(e.sign_inverted, n.fine_bound_mv->0 as int, 1),
    );
    assert(1 * EngineView::fine_margin(st) == EngineView::fine_margin(st));
    assert(-1 * EngineView::fine_margin(st) == -EngineView::fine_margin(st));
}

/// Where already the first measurement of a ramp reaches the target, no bias is reported as
/// found: the power had not settled in its time, or the target is out of reach.
pub proof fn law_a_ramp_above_the_target_finds_nothing(
    e: EngineView,
    inp: PollInput,
    st: ScanPaState,
    mw: u16,
)
    requires
        aims_at(e, mw),
        scan_pa_ok(st),
        st.phase is CoarseRamp,
        reaches(inp, mw),
        st.last_below_target_mv is None,
    ensures
        e.judge_scan_pa(inp, st).pending_result == Some(
            SweepResult {
                level: e.levels[e.level_idx as int],
                freq_idx: e.freq_idx,
                vbias_mv: Some(st.vbias_mv as u16),
                detector_mv: None,
                success: false,
                pa_failure: false,
                not_settled: st.settle_timed_out,
            },
        ),
{
}

/// A fine search raises the power by single millivolts until the target is reached; the
/// bias at which it was reached is the one that is found. Where the search may not go
/// further, it is given up.
pub proof fn law_a_fine_search_ends_at_the_target(
    e: EngineView,
    inp: PollInput,
    st: ScanPaState,
    mw: u16,
)
    requires
        aims_at(e, mw),
        scan_pa_ok(st),
        st.phase is Fine,
    ensures
        ({
            let r = e.judge_scan_pa(inp, st);
            let next = stronger(e.sign_inverted, st.vbias_mv as int, 1);
            let beyond = st.fine_bound_mv matches Some(bound) && gain(
                e.sign_inverted,
                bound as int,
                next,
            ) > 0;
            let report = SweepResult {
                level: e.levels[e.level_idx as int],
                freq_idx: e.freq_idx,
                vbias_mv: Some(st.vbias_mv as u16),
                detector_mv: None,
                success: reaches(inp, mw),
                pa_failure: false,
                not_settled: false,
            };
            if reaches(inp, mw) || beyond || !e.allowed(e.level(), next) {
                r.pending_result == Some(report)
            } else {
                &&& in_scan_pa(r) matches Some(n) && n == (ScanPaState {
                    vbias_mv: n.vbias_mv,
                    wait: None,
                    ..st
                }) && n.vbias_mv == next
                &&& r.pending_result == e.pending_result
                &&& same_place(e, r)
            }
        }),
{
}

/// The highest rolling average of a fine search only grows, and is one that was measured.
/// The amplifier fails where the average falls below what the highest one allows, but not
/// in the first fifteen seconds.
pub proof fn law_an_amplifier_fails_against_its_peak(
    st: ScanPaState,
    inp: PollInput,
    started: u64,
    peak: RollingAverage,
    rolling: RollingAverage,
)
    requires
        st.fine_started_at is Some,
        st.fine_started_instant == Some(started),
        started <= inp.now,
        st.fine_highest_avg_mw == Some(peak),
        inp.samples.rolling == Some(rolling),
    ensures
        watch_peak(st, inp) is None <==> inp.now - started >= 15_000_000_000
            && rolling.average.below(peak.floor),
        watch_peak(st, inp) matches Some(w) ==> {
            &&& w == (ScanPaState { fine_highest_avg_mw: w.fine_highest_avg_mw, ..st })
            &&& w.fine_highest_avg_mw matches Some(h) && (h == peak || h == rolling)
                && !h.average.below(peak.average) && !h.average.below(rolling.average) && (
            peak.average.is_nan() ==> h == rolling) && (rolling.average.is_nan()
                && !peak.average.is_nan() ==> h == peak)
        },
{
}

/// Without a rolling average nothing is learnt of the peak; the first one is the peak.
pub proof fn law_the_first_rolling_average_is_the_peak(st: ScanPaState, inp: PollInput)
    requires
        st.fine_highest_avg_mw is None,
    ensures
        watch_peak(st, inp) == Some(
            ScanPaState {
                fine_highest_avg_mw: if st.fine_started_at is Some {
                    inp.samples.rolling
                } else {
                    None
                },
                ..st
            },
        ),
{
}

/// A fine search whose amplifier fails ends at once, with that report.
pub proof fn law_a_failing_amplifier_ends_the_search(
    e: EngineView,
    inp: PollInput,
    st: ScanPaState,
)
    requires
        e.wf(),
        e.levels.len() > 0,
        scan_pa_ok(st),
        st.phase is Fine,
        !e.boost_settling(inp.now),
        watch_peak(st, inp) is None,
    ensures
        e.tick_scan_pa(inp, st).1 is Nothing,
        e.tick_scan_pa(inp, st).0.pending_result == Some(
            SweepResult {
                level: e.levels[e.level_idx as int],
                freq_idx: e.freq_idx,
                vbias_mv: Some(st.vbias_mv as u16),
                detector_mv: None,
                success: false,
                pa_failure: true,
                not_settled: false,
            },
        ),
{
}

/// While a fine search settles, nothing is judged, but the peak is watched.
pub proof fn law_nothing_is_judged_while_a_fine_search_settles(
    e: EngineView,
    inp: PollInput,
    st: ScanPaState,
    until: u64,
)
    requires
        !e.boost_settling(inp.now),
        st.phase is Fine,
        st.fine_settle_until == Some(until),
        inp.now < until,
        watch_peak(st, inp) is Some,
    ensures
        ({
            let r = carried_out(e.tick_scan_pa(inp, st), inp.now);
            &&& in_scan_pa(r) == Some(ScanPaState { wait: None, ..watch_peak(st, inp)->0 })
            &&& r.pending_result == e.pending_result
            &&& same_place(e, r)
        }),
{
}

/// The amplifier settles for two seconds after it was reported on when it had not been. A
/// report that it is off, or none, changes nothing of that.
pub proof fn law_an_enabled_amplifier_settles(e: EngineView, inp: PollInput)
    ensures
        ({
            let r = e.note_boost(inp);
            let report = match inp.latest_reading {
                Some(reading) => reading.boost_on,
                None => None,
            };
            let newly_on = report == Some(true) && e.last_boost_on != Some(true);
            &&& r == (EngineView {
                boost_settle_until: r.boost_settle_until,
                pa_enable_settle_pending: e.pa_enable_settle_pending || newly_on,
                last_boost_on: if report is Some {
                    report
                } else {
                    e.last_boost_on
                },
                ..e
            })
            &&& r.boost_settle_until == if newly_on {
                Some(after(inp.now, 2_000_000_000))
            } else {
                e.boost_settle_until
            }
        }),
{
}

/// A scan for a bias sends its bias and then waits for four samples that come in after it;
/// until they have, it stays as it is and sends at most the same bias again.
pub proof fn law_a_bias_waits_for_its_samples(e: EngineView, inp: PollInput, st: ScanPaState)
    requires
        e.wf(),
        scan_pa_ok(st),
        e.allowed(e.level(), st.vbias_mv as int),
        st.wait matches Some(w) ==> inp.reading_seq < w.start_seq + w.needed,
    ensures
        ({
            let turn = e.sample_scan_pa(inp, st);
            let r = carried_out(turn, inp.now);
            &&& turn.1 is Nothing <==> e.throttled(inp.now)
            &&& turn.1 matches PollOutcome::Send { message, .. } ==> message
                == (Message::Calibration {
                level: e.level(),
                mv: Some(st.vbias_mv as u16),
                session_active: e.session_active,
                boost_mode: e.boost_mode,
            })
            &&& in_scan_pa(r) == Some(
                ScanPaState {
                    wait: if st.wait is Some {
                        st.wait
                    } else if turn.1 is Nothing {
                        None
                    } else {
                        Some(
                            SampleWait {
                                start_seq: inp.reading_seq,
                                needed: 4,
                                skip_first: 0,
                            },
                        )
                    },
                    ..st
                },
            )
            &&& r.pending_result == e.pending_result
            &&& same_place(e, r)
        }),
{
}

/// A search for the detector waits for one sample at each bias while it backs off, and for
/// twenty while it brackets the target, of which the newest ten count; and for a reading of
/// the VTX that came since.
pub proof fn law_a_detector_waits_for_its_samples(
    e: EngineView,
    inp: PollInput,
    st: ScanDetectorState,
)
    requires
        e.wf(),
        scan_detector_ok(st),
        e.allowed(e.level(), st.vbias_mv as int),
        !e.boost_settling(inp.now),
        st.last_reading is None || (st.wait matches Some(w) ==> inp.reading_seq < w.start_seq
            + w.needed),
    ensures
        ({
            let turn = e.tick_scan_detector(inp, st);
            let r = carried_out(turn, inp.now);
            &&& turn.1 is Nothing <==> e.throttled(inp.now)
            &&& turn.1 matches PollOutcome::Send { message, .. } ==> message
                == (Message::Calibration {
                level: e.level(),
                mv: Some(st.vbias_mv as u16),
                session_active: e.session_active,
                boost_mode: e.boost_mode,
            })
            &&& in_scan_detector(r) == Some(
                ScanDetectorState {
                    wait: if st.wait is Some {
                        st.wait
                    } else if turn.1 is Nothing {
                        None
                    } else {
                        Some(
                            SampleWait {
                                start_seq: inp.reading_seq,
                                needed: if st.phase is Backoff {
                                    1
                                } else {
                                    20
                                },
                                skip_first: if st.phase is Backoff {
                                    0
                                } else {
                                    10
                                },
                            },
                        )
                    },
                    ..st
                },
            )
            &&& r.pending_result == e.pending_result
            &&& same_place(e, r)
        }),
{
}

/// Neither scan judges anything while the amplifier settles.
pub proof fn law_no_detector_is_judged_while_the_amplifier_settles(
    e: EngineView,
    inp: PollInput,
    st: ScanDetectorState,
)
    requires
        e.boost_settling(inp.now),
    ensures
        ({
            let r = carried_out(e.tick_scan_detector(inp, st), inp.now);
            &&& in_scan_detector(r) == Some(ScanDetectorState { wait: None, ..st })
            &&& r.pending_result == e.pending_result
            &&& same_place(e, r)
        }),
{
}

/// A search for the detector backs off by single millivolts towards less power until the
/// power is below the target, and brackets the target from that bias on. At the end of the
/// bounds it tries five times, and then reports what the detector reads as not found.
pub proof fn law_backing_off_lowers_the_power(
    e: EngineView,
    inp: PollInput,
    st: ScanDetectorState,
    mw: u16,
    detector_mv: u16,
)
    requires
        e.wf(),
        aims_at(e, mw),
        scan_detector_ok(st),
        e.allowed(e.level(), st.vbias_mv as int),
        st.phase is Backoff,
    ensures
        ({
            let (r, outcome) = e.judge_scan_detector(inp, st, detector_mv);
            let weaker = stronger(e.sign_inverted, st.vbias_mv as int, -1);
            let pinned = !e.allowed(e.level(), weaker);
            &&& outcome is Nothing
            &&& if inp.samples.average.below(Power::of_mw(mw)) {
                &&& in_scan_detector(r) == Some(
                    ScanDetectorState {
                        phase: ScanDetectorPhase::Bracket,
                        wait: None,
                        last_reading: None,
                        pinned_count: 0,
                        ..st
                    },
                )
                &&& r.pending_result == e.pending_result
                &&& same_place(e, r)
            } else if pinned && st.pinned_count == 4 {
                r.pending_result == Some(
                    SweepResult {
                        level: e.levels[e.level_idx as int],
                        freq_idx: e.freq_idx,
                        vbias_mv: None,
                        detector_mv: Some(detector_mv),
                        success: false,
                        pa_failure: false,
                        not_settled: false,
                    },
                )
            } else {
                &&& in_scan_detector(r) matches Some(n) && n == (ScanDetectorState {
                    vbias_mv: n.vbias_mv,
                    pinned_count: n.pinned_count,
                    wait: None,
                    last_reading: None,
                    ..st
                }) && n.vbias_mv == (if pinned {
                    st.vbias_mv as int
                } else {
                    weaker
                }) && n.pinned_count == (if pinned {
                    st.pinned_count + 1
                } else {
                    0
                })
                &&& r.pending_result == e.pending_result
                &&& same_place(e, r)
            }
        }),
{
    law_a_limit_bounds_the_power(e, e.level(), st.vbias_mv as int);
    law_a_limit_bounds_the_power(e, e.level(), stronger(e.sign_inverted, st.vbias_mv as int, -1));
}

/// The place of a power that was measured: outside the tolerance on either side, or inside
/// it, below the target or not.
pub open spec fn too_weak(inp: PollInput) -> bool {
    inp.samples.average.below(inp.samples.band_low)
}

pub open spec fn too_strong(inp: PollInput) -> bool {
    !too_weak(inp) && inp.samples.band_high.below(inp.samples.average)
}

/// What a search for the detector captures within the tolerance is what was measured: the
/// average and the detector voltage of that very reading, on the side of the target on
/// which the average is. A point on the other side stays, and outside the tolerance both do.
pub proof fn law_captured_points_were_measured(
    e: EngineView,
    inp: PollInput,
    st: ScanDetectorState,
    mw: u16,
    detector_mv: u16,
)
    requires
        aims_at(e, mw),
    ensures
        ({
            let next = e.bracket_step(inp, st, detector_mv).0;
            let inside = !too_weak(inp) && !too_strong(inp);
            let low = inp.samples.average.below(Power::of_mw(mw));
            let here = Some(DetectorPoint { average: inp.samples.average, detector_mv });
            &&& next.below == if inside && low {
                here
            } else {
                st.below
            }
            &&& next.above == if inside && !low {
                here
            } else {
                st.above
            }
            &&& next == (ScanDetectorState { below: next.below, above: next.above, ..st })
        }),
{
}

/// A search for the detector goes towards the target by two millivolts from outside the
/// tolerance, and across it by one from inside.
pub proof fn law_a_bracket_goes_towards_the_target(
    e: EngineView,
    inp: PollInput,
    st: ScanDetectorState,
    mw: u16,
    detector_mv: u16,
)
    requires
        aims_at(e, mw),
    ensures
        gain(
            e.sign_inverted,
            st.vbias_mv as int,
            e.bracket_step(inp, st, detector_mv).1,
        ) == if too_weak(inp) {
            2int
        } else if too_strong(inp) {
            -2
        } else if inp.samples.average.below(Power::of_mw(mw)) {
            1
        } else {
            -1
        },
{
}

/// The points that an interpolation is given are the two that the search captured: with
/// this measurement, or before it. None is wanted before both are there, and then nothing
/// else happens at the point; else the search goes on, or is given up where it was held at
/// the end of its bounds five times in a row.
#[verifier::rlimit(60)]
pub proof fn law_an_interpolation_is_between_measured_points(
    e: EngineView,
    inp: PollInput,
    st: ScanDetectorState,
    mw: u16,
    detector_mv: u16,
)
    requires
        e.wf(),
        aims_at(e, mw),
        scan_detector_ok(st),
        st.phase is Bracket,
    ensures
        ({
            let (r, outcome) = e.judge_scan_detector(inp, st, detector_mv);
            let (next, wanted) = e.bracket_step(inp, st, detector_mv);
            let held = !e.allowed(e.level(), wanted);
            if held && st.pinned_count == 4 {
                &&& outcome is Nothing
                &&& r.pending_result == Some(
                    SweepResult {
                        level: e.levels[e.level_idx as int],
                        freq_idx: e.freq_idx,
                        vbias_mv: None,
                        detector_mv: Some(detector_mv),
                        success: false,
                        pa_failure: false,
                        not_settled: false,
                    },
                )
            } else if next.below is Some && next.above is Some {
                &&& outcome == (PollOutcome::Interpolate {
                    target_mw: mw,
                    below: next.below->0,
                    above: next.above->0,
                })
                &&& r == e
            } else {
                &&& outcome is Nothing
                &&& r.pending_result == e.pending_result
                &&& same_place(e, r)
                &&& in_scan_detector(r) matches Some(n) && n == (ScanDetectorState {
                    vbias_mv: n.vbias_mv,
                    pinned_count: n.pinned_count,
                    wait: None,
                    last_reading: None,
                    ..next
                }) && e.allowed(e.level(), n.vbias_mv as int) && (!held ==> n.vbias_mv == wanted)
                    && n.pinned_count == (if held {
                    st.pinned_count + 1
                } else {
                    0
                })
            }
        }),
{
    let (_, wanted) = e.bracket_step(inp, st, detector_mv);
    law_a_limit_bounds_the_power(e, e.level(), wanted);
    law_a_limit_bounds_the_power(e, e.level(), e.in_bounds(e.level(), wanted));
    if e.hard_limits.contains_key(e.level()) {
        assert(in_range(e.hard_limits[e.level()]));
    }
}

/// What a scan is given to judge by: the average of as many of the newest samples as it
/// waited for, less those that do not count, and for a fine search the samples since it
/// began.
pub proof fn law_a_scan_asks_for_what_it_waited_for(e: EngineView, mw: u16)
    requires
        aims_at(e, mw),
    ensures
        e.sample_request().target_mw == mw,
        in_scan_pa(e) matches Some(st) ==> {
            &&& st.wait matches Some(w) ==> w.skip_first <= w.needed
                ==> e.sample_request().newest == w.needed - w.skip_first
            &&& e.sample_request().rolling_since == if st.phase is Fine {
                st.fine_started_at
            } else {
                None
            }
        },
        in_scan_detector(e) matches Some(st) ==> {
            &&& st.wait matches Some(w) ==> w.skip_first <= w.needed
                ==> e.sample_request().newest == w.needed - w.skip_first
            &&& e.sample_request().rolling_since is None
        },
{
}

/// The status that a cell has after one was set on it.
pub open spec fn status_or_limit(before: EngineView, detector: bool, status: CellStatus) -> CellStatus {
    let cells = if detector {
        before.det_cells
    } else {
        before.cal_cells
    };
    let key = (before.levels[before.level_idx as int], before.freq_idx);
    if cells.contains_key(key) && cells[key] == CellStatus::LimitHit {
        CellStatus::LimitHit
    } else {
        status
    }
}

/// However a search for a bias ends, its bias and how it ended are reported for its point
/// and marked in its cell. After a bias that was found or given up comes the detector of the
/// same point, about which nothing is known yet. After a failure the point is over, and its
/// detector is marked as well.
#[verifier::rlimit(60)]
pub proof fn law_an_ended_search_is_reported(
    e: EngineView,
    vbias_mv: i32,
    outcome: ScanPaOutcome,
)
    requires
        e.wf(),
        e.levels.len() > 0,
        e.frequencies.len() > 0,
        in_range(vbias_mv),
    ensures
        ({
            let r = e.finish_scan_pa(vbias_mv, outcome);
            let level = e.levels[e.level_idx as int];
            let key = (level, e.freq_idx);
            let failed = outcome is PaFailure || outcome is NotSettled;
            let mark = match outcome {
                ScanPaOutcome::Success => CellStatus::Calibrated,
                ScanPaOutcome::Uncalibrated => CellStatus::Uncalibrated,
                ScanPaOutcome::PaFailure => CellStatus::PaFailure,
                ScanPaOutcome::NotSettled => CellStatus::NotSettled,
            };
            &&& r.pending_result == Some(
                SweepResult {
                    level,
                    freq_idx: e.freq_idx,
                    vbias_mv: Some(vbias_mv as u16),
                    detector_mv: None,
                    success: outcome is Success,
                    pa_failure: outcome is PaFailure,
                    not_settled: outcome is NotSettled,
                },
            )
            &&& r.cal_cells == e.cal_cells.insert(key, status_or_limit(e, false, mark))
            &&& r.det_cells == if failed {
                e.det_cells.insert(key, status_or_limit(e, true, mark))
            } else {
                e.det_cells
            }
            &&& r.completed_steps == e.completed_steps.wrapping_add(1).wrapping_add(
                if failed {
                    1
                } else {
                    0
                },
            )
            &&& !failed ==> same_place(e, r) && r.level_status == e.level_status
                && r.pending_sends == e.pending_sends && (in_scan_detector(r) matches Some(st)
                && st == (ScanDetectorState {
                phase: ScanDetectorPhase::Backoff,
                vbias_mv: st.vbias_mv,
                wait: None,
                below: None,
                above: None,
                pinned_count: 0,
                last_reading: None,
            }))
            &&& failed ==> r.level_status == e.level_status.insert(
                level,
                if outcome is NotSettled {
                    LevelStatusView::NotSettled
                } else {
                    LevelStatusView::PaFailure
                },
            )
            &&& failed ==> (r.state is Idle <==> !e.has_next())
        }),
{
    let r = e.finish_scan_pa(vbias_mv, outcome);
    let key = (e.levels[e.level_idx as int], e.freq_idx);
    assert(r.cal_cells =~= e.cal_cells.insert(key, r.cal_cells[key]));
    assert(r.det_cells =~= e.det_cells.insert(key, r.det_cells[key]) || r.det_cells
        =~= e.det_cells);
}

/// A detector voltage ends its point: it is reported with how it came about, marked in the
/// cell, and the level is done; and the sweep goes on to the next point, if any.
#[verifier::rlimit(60)]
pub proof fn law_a_detector_voltage_ends_its_point(e: EngineView, detector_mv: u16, success: bool)
    requires
        e.wf(),
        e.levels.len() > 0,
        e.frequencies.len() > 0,
    ensures
        ({
            let r = e.finish_scan_detector(detector_mv, success);
            let level = e.levels[e.level_idx as int];
            let key = (level, e.freq_idx);
            &&& r.pending_result == Some(
                SweepResult {
                    level,
                    freq_idx: e.freq_idx,
                    vbias_mv: None,
                    detector_mv: Some(detector_mv),
                    success,
                    pa_failure: false,
                    not_settled: false,
                },
            )
            &&& r.cal_cells == e.cal_cells
            &&& r.det_cells == e.det_cells.insert(
                key,
                status_or_limit(
                    e,
                    true,
                    if success {
                        CellStatus::Calibrated
                    } else {
                        CellStatus::Uncalibrated
                    },
                ),
            )
            &&& r.level_status == e.level_status.insert(level, LevelStatusView::Done)
            &&& r.completed_steps == e.completed_steps.wrapping_add(1)
            &&& r.state is Idle <==> !e.has_next()
        }),
{
    let r = e.finish_scan_detector(detector_mv, success);
    let key = (e.levels[e.level_idx as int], e.freq_idx);
    assert(r.det_cells =~= e.det_cells.insert(key, r.det_cells[key]));
}

/// What a turn of the sweep that sends a bias for a scan keeps of it is the step that the
/// scan is at then.
pub proof fn law_a_sent_bias_is_taken_up(e: EngineView, step: AutomaticStep, now: u64)
    ensures
        e.sent(AfterSend::Scan(step), now) == (EngineView {
            state: EngineState::Automatic(step),
            last_send: Some(now),
            ..e
        }),
        e.sent(AfterSend::Manual, now) == (EngineView {
            last_send: Some(now),
            manual_send_pending: false,
            ..e
        }),
        e.sent(AfterSend::Nothing, now) == e,
{
}

/// A level that the table gives no power aims at none.
pub proof fn law_a_level_without_a_power_aims_at_none(e: EngineView)
    requires
        e.level_idx < e.levels.len(),
        !e.targets.contains_key(e.levels[e.level_idx as int]),
    ensures
        e.target_mw() == 0,
        e.sample_request().target_mw == 0,
{
}

/// A search for the detector begins five millivolts below the bias that was found, or at the
/// bound where that is nearer.
pub proof fn law_a_detector_search_begins_with_less_power(
    e: EngineView,
    vbias_mv: i32,
    outcome: ScanPaOutcome,
)
    requires
        e.wf(),
        e.levels.len() > 0,
        e.allowed(e.level(), vbias_mv as int),
        outcome is Success || outcome is Uncalibrated,
    ensures
        in_scan_detector(e.finish_scan_pa(vbias_mv, outcome)) matches Some(st) && {
            let back = gain(e.sign_inverted, st.vbias_mv as int, vbias_mv as int);
            &&& e.allowed(e.level(), st.vbias_mv as int)
            &&& 0 <= back <= 5
            &&& back < 5 ==> !e.allowed(
                e.level(),
                stronger(e.sign_inverted, st.vbias_mv as int, -1),
            )
        },
{
}

/// A bias that is wanted is taken where it is allowed; otherwise the allowed one that is
/// nearest to it is, and it is counted how often in a row that was so.
pub proof fn law_a_bias_goes_as_far_as_it_may(
    e: EngineView,
    st: ScanDetectorState,
    wanted: int,
    mv: int,
)
    requires
        e.wf(),
        e.levels.len() > 0,
        scan_detector_ok(st),
    ensures
        ({
            let n = e.moved(st, wanted);
            let is = n.vbias_mv as int;
            &&& e.allowed(e.level(), is)
            &&& e.allowed(e.level(), wanted) ==> is == wanted && n.pinned_count == 0
            &&& !e.allowed(e.level(), wanted) ==> n.pinned_count == st.pinned_count + 1
            &&& e.allowed(e.level(), mv) && wanted < is ==> is <= mv
            &&& e.allowed(e.level(), mv) && wanted > is ==> mv <= is
        }),
{
}

/// A scan that waits for no samples asks for none, and so does a sweep that scans nothing.
pub proof fn law_nothing_is_asked_for_without_need(e: EngineView)
    ensures
        in_scan_pa(e) matches Some(st) ==> st.wait is None ==> e.sample_request().newest == 0,
        in_scan_detector(e) matches Some(st) ==> st.wait is None ==> e.sample_request().newest == 0,
        in_scan_pa(e) is None && in_scan_detector(e) is None ==> e.sample_request().newest == 0
            && e.sample_request().rolling_since is None,
{
}

/// Samples are complete once as many readings have come as were waited for, counted from the
/// one that was the newest when the waiting began.
pub proof fn law_samples_are_complete_when_all_have_come(w: SampleWait, seq: u64)
    requires
        w.start_seq + w.needed <= u64::MAX,
    ensures
        w.is_ready(seq) <==> seq >= w.start_seq + w.needed,
{
}

/// A scan says what it does, at which frequency, and with which bias.
pub proof fn law_a_scan_says_where_it_is(e: EngineView, st: ScanPaState, sd: ScanDetectorState)
    requires
        e.wf(),
        e.levels.len() > 0,
        e.frequencies.len() > 0,
    ensures
        ({
            let level = e.levels[e.level_idx as int];
            let (a, b) = (e.go_on_scan_pa(st), e.go_on_scan_detector(sd));
            let at = " @ "@ + decimal(e.frequencies[e.freq_idx as int] as nat)
                + "MHz vbias_mv="@;
            let pa = match st.phase {
                ScanPaPhase::Settle => "settling"@,
                ScanPaPhase::CoarseRamp => "coarse ramp"@,
                ScanPaPhase::Fine => "fine"@,
            };
            let detector = if sd.phase is Backoff {
                "backoff"@
            } else {
                "bracket"@
            };
            &&& a.level_status == e.level_status.insert(
                level,
                LevelStatusView::InProgress(
                    "ScanPa / "@ + pa + at + signed_decimal(st.vbias_mv as int),
                ),
            )
            &&& b.level_status == e.level_status.insert(
                level,
                LevelStatusView::InProgress(
                    "ScanDetector / "@ + detector + at + signed_decimal(sd.vbias_mv as int),
                ),
            )
            &&& in_scan_pa(a) == Some(st) && in_scan_detector(b) == Some(sd)
            &&& same_place(e, a) && same_place(e, b)
        }),
{
    reveal_strlit("ScanPa");
    reveal_strlit(" / ");
    reveal_strlit("ScanPa / ");
    reveal_strlit("ScanDetector");
    reveal_strlit("ScanDetector / ");
    reveal_strlit("MHz");
    reveal_strlit(" vbias_mv=");
    reveal_strlit("MHz vbias_mv=");
    assert("ScanPa"@ + " / "@ =~= "ScanPa / "@);
    assert("ScanDetector"@ + " / "@ =~= "ScanDetector / "@);
    assert("MHz"@ + " vbias_mv="@ =~= "MHz vbias_mv="@);
    let f = decimal(e.frequencies[e.freq_idx as int] as nat);
    let at = " @ "@ + f + "MHz vbias_mv="@;
    let (p, q) = (pa_phase_text(st.phase), detector_phase_text(sd.phase));
    let (v, w) = (signed_decimal(st.vbias_mv as int), signed_decimal(sd.vbias_mv as int));
    assert("ScanPa"@ + " / "@ + p + " @ "@ + f + "MHz"@ + " vbias_mv="@ + v =~= "ScanPa / "@ + p
        + at + v);
    assert("ScanDetector"@ + " / "@ + q + " @ "@ + f + "MHz"@ + " vbias_mv="@ + w
        =~= "ScanDetector / "@ + q + at + w);
}

/// A sweep that enters a point says so: what it does first, and at which frequency.
pub proof fn law_entering_a_point_is_said(e: EngineView, inp: PollInput)
    requires
        e.wf(),
        e.levels.len() > 0,
        e.frequencies.len() > 0,
    ensures
        e.enter_point(inp).0.level_status == e.level_status.insert(
            e.levels[e.level_idx as int],
            LevelStatusView::InProgress(
                "ScanPa / "@ + (if e.pa_enable_settle_pending {
                    "settling"@
                } else {
                    "coarse ramp"@
                }) + " @ "@ + decimal(e.frequencies[e.freq_idx as int] as nat) + "MHz"@,
            ),
        ),
{
    reveal_strlit("ScanPa");
    reveal_strlit(" / ");
    reveal_strlit("ScanPa / ");
    assert("ScanPa"@ + " / "@ =~= "ScanPa / "@);
}

} // verus!

//! What holds of every sweep.

use vstd::arithmetic::div_mod::lemma_fundamental_div_mod_converse;
use vstd::prelude::*;

use crate::calibration_engine::cells::CellStatus;
use crate::calibration_engine::model::{
    clamped,
    in_range,
    pa_phase_text,
    progress_text,
    ramp_start,
    resumed,
    scan_pa_ok,
    up,
    watch_peak,
    with_cell,
    EngineView,
};
use crate::calibration_engine::types::{
    AfterSend,
    AutomaticStep,
    BoostMode,
    ConnectionLossReason,
    EngineState,
    LevelStatusView,
    Message,
    PendingSend,
    PollInput,
    PollOutcome,
    ResumeMode,
    ScanDetectorState,
    ScanPaOutcome,
    ScanPaState,
    SweepOp,
};
use crate::calibration_engine::types::{HEARTBEAT_BACKOFF_MV, VBIAS_MAX_MV};
use crate::power_meter::{nearest, CapabilityView};

verus! {

/// What can happen to a sweep.
pub enum Event {
    Start(CapabilityView),
    StartManual(CapabilityView),
    SetPaBoost(bool),
    SetManualDac(i32),
    ManualNext(u16),
    ExitManual,
    ResumeAutomatic,
    ConfirmFrequency,
    Abort,
    SkipMultiple(nat),
    ForceConnectionLost(ConnectionLossReason),
    ClearHardLimits,
    Poll(PollInput),
    Sent(AfterSend, u64),
    Interpolated(u16),
}

impl EngineView {
    pub open spec fn apply(self, event: Event) -> EngineView {
        match event {
            Event::Start(c) => self.start(c),
            Event::StartManual(c) => self.start_manual(c),
            Event::SetPaBoost(on) => self.set_pa_boost(on),
            Event::SetManualDac(mv) => self.set_manual_dac(mv),
            Event::ManualNext(d) => self.manual_next(d),
            Event::ExitManual => self.exit_manual(),
            Event::ResumeAutomatic => self.resume_automatic_from_current(),
            Event::ConfirmFrequency => self.confirm_frequency(),
            Event::Abort => self.abort(),
            Event::SkipMultiple(n) => self.skip_multiple(n),
            Event::ForceConnectionLost(r) => self.force_connection_lost(r),
            Event::ClearHardLimits => EngineView { hard_limits: Map::empty(), ..self },
            Event::Poll(inp) => self.poll(inp).0,
            Event::Sent(after, now) => self.sent(after, now),
            Event::Interpolated(d) => self.finish_scan_detector(d, true),
        }
    }

    /// What hit a limit in this sweep did so in the other too.
    pub open spec fn limits_kept_in(self, other: EngineView) -> bool {
        &&& forall|k: (u8, usize)| #[trigger]
            hit(self.cal_cells, k) ==> hit(other.cal_cells, k)
        &&& forall|k: (u8, usize)| #[trigger]
            hit(self.det_cells, k) ==> hit(other.det_cells, k)
    }
}

pub open spec fn hit(cells: Map<(u8, usize), CellStatus>, k: (u8, usize)) -> bool {
    cells.contains_key(k) && cells[k] == CellStatus::LimitHit
}

/// What no event changes: what is swept, and what hit a limit.
pub open spec fn follows(a: EngineView, b: EngineView) -> bool {
    &&& a.limits_kept_in(b)
    &&& b.levels == a.levels
    &&& b.frequencies == a.frequencies
    &&& b.sign_inverted == a.sign_inverted
    &&& b.targets == a.targets
    &&& b.sweep_hz == a.sweep_hz
    &&& b.total_steps == a.total_steps
}

#[verifier::rlimit(60)]
proof fn lemma_finish_scan_pa(
    e: EngineView,
    vbias_mv: i32,
    outcome: ScanPaOutcome,
)
    ensures
        follows(e, e.finish_scan_pa(vbias_mv, outcome)),
{
    let r = e.finish_scan_pa(vbias_mv, outcome);
    assert forall|k: (u8, usize)| #[trigger] hit(e.cal_cells, k) implies hit(r.cal_cells, k) by {}
    assert forall|k: (u8, usize)| #[trigger] hit(e.det_cells, k) implies hit(r.det_cells, k) by {}
}

#[verifier::rlimit(60)]
proof fn lemma_finish_scan_detector(e: EngineView, detector_mv: u16, success: bool)
    ensures
        follows(e, e.finish_scan_detector(detector_mv, success)),
{
    let r = e.finish_scan_detector(detector_mv, success);
    assert forall|k: (u8, usize)| #[trigger] hit(e.cal_cells, k) implies hit(r.cal_cells, k) by {}
    assert forall|k: (u8, usize)| #[trigger] hit(e.det_cells, k) implies hit(r.det_cells, k) by {}
}

#[verifier::rlimit(60)]
proof fn lemma_sample_scan_pa(e: EngineView, inp: PollInput, st: ScanPaState)
    ensures
        follows(e, e.sample_scan_pa(inp, st).0),
{
    let d = EngineView { pa_enable_settle_pending: false, ..e };
    lemma_finish_scan_pa(
        e,
        st.vbias_mv,
        ScanPaOutcome::NotSettled,
    );
    lemma_finish_scan_pa(
        e,
        st.vbias_mv,
        ScanPaOutcome::Uncalibrated,
    );
    lemma_finish_scan_pa(
        e,
        st.vbias_mv,
        ScanPaOutcome::Success,
    );
    assert(follows(e, d));
}

#[verifier::rlimit(60)]
proof fn lemma_tick_scan_pa(e: EngineView, inp: PollInput, st: ScanPaState)
    ensures
        follows(e, e.tick_scan_pa(inp, st).0),
{
    let d = EngineView { boost_settle_until: None, ..e };
    lemma_sample_scan_pa(d, inp, st);
    lemma_finish_scan_pa(d, st.vbias_mv, ScanPaOutcome::PaFailure);
    match watch_peak(st, inp) {
        Some(watched) => {
            lemma_sample_scan_pa(d, inp, ScanPaState { fine_settle_until: None, ..watched });
        },
        None => {},
    }
}

#[verifier::rlimit(60)]
proof fn lemma_tick_scan_detector(e: EngineView, inp: PollInput, st: ScanDetectorState)
    ensures
        follows(e, e.tick_scan_detector(inp, st).0),
{
    let d = EngineView { boost_settle_until: None, ..e };
    match st.last_reading {
        Some(reading) => {
            lemma_finish_scan_detector(d, reading.detector_mv, false);
        },
        None => {},
    }
}

#[verifier::rlimit(60)]
proof fn lemma_enter_point(e: EngineView, inp: PollInput)
    ensures
        follows(e, e.enter_point(inp).0),
{
    let st = e.first_scan(inp.now);
    let d = e.with_level_status(
        e.level(),
        LevelStatusView::InProgress(
            progress_text(SweepOp::ScanPa, pa_phase_text(st.phase), e.freq_mhz(), None),
        ),
    );
    lemma_tick_scan_pa(d, inp, st);
}

#[verifier::rlimit(60)]
proof fn lemma_watch_connection(e: EngineView, inp: PollInput, vbias_mv_now: i32)
    ensures
        follows(e, e.watch_connection(inp, vbias_mv_now)),
{
}

#[verifier::rlimit(60)]
proof fn lemma_follows_transitive(a: EngineView, b: EngineView, c: EngineView)
    requires
        follows(a, b),
        follows(b, c),
    ensures
        follows(a, c),
{
    assert forall|k: (u8, usize)| #[trigger] hit(a.cal_cells, k) implies hit(c.cal_cells, k) by {
        assert(hit(b.cal_cells, k));
    }
    assert forall|k: (u8, usize)| #[trigger] hit(a.det_cells, k) implies hit(c.det_cells, k) by {
        assert(hit(b.det_cells, k));
    }
}

#[verifier::rlimit(60)]
proof fn lemma_poll_automatic(e: EngineView, inp: PollInput, step: AutomaticStep)
    ensures
        follows(e, e.poll_automatic(inp, step).0),
{
    let watched = e.watch_connection(inp, e.scan_vbias_mv());
    lemma_watch_connection(e, inp, e.scan_vbias_mv());
    let d = EngineView { state: EngineState::Idle, ..watched };
    let r = match step {
        AutomaticStep::EnteringPoint => {
            lemma_enter_point(d, inp);
            d.enter_point(inp).0
        },
        AutomaticStep::ScanPa(st) => {
            lemma_tick_scan_pa(d, inp, st);
            d.tick_scan_pa(inp, st).0
        },
        AutomaticStep::ScanDetector(st) => {
            lemma_tick_scan_detector(d, inp, st);
            d.tick_scan_detector(inp, st).0
        },
    };
    lemma_follows_transitive(e, watched, d);
    lemma_follows_transitive(e, d, r);
}

#[verifier::rlimit(60)]
proof fn lemma_poll(e: EngineView, inp: PollInput)
    ensures
        follows(e, e.poll(inp).0),
{
    reveal(EngineView::poll_dispatch);
    let d = e.note_boost(inp);
    assert(follows(e, d));
    match d.state {
        EngineState::Automatic(step) => {
            lemma_poll_automatic(d, inp, step);
        },
        EngineState::Manual => {
            lemma_watch_connection(d, inp, d.manual_dac_mv);
            assert(follows(d, d.poll_manual(inp).0));
        },
        _ => {},
    }
    let r = e.poll_dispatch(inp).0;
    assert(follows(d, r));
    lemma_follows_transitive(e, d, r);
    lemma_follows_transitive(e, r, e.poll(inp).0);
}

#[verifier::rlimit(60)]
proof fn lemma_skip_run(e: EngineView, done: nat, count: nat)
    ensures
        follows(e, e.skip_run(done, count).0),
    decreases count - done,
{
    if done < count {
        let marked = e.skip_mark(done == 0);
        assert forall|k: (u8, usize)| #[trigger] hit(e.cal_cells, k) implies hit(
            marked.cal_cells,
            k,
        ) by {}
        assert forall|k: (u8, usize)| #[trigger] hit(e.det_cells, k) implies hit(
            marked.det_cells,
            k,
        ) by {}
        if marked.has_next() {
            let next = marked.at_next();
            lemma_skip_run(next, done + 1, count);
            lemma_follows_transitive(e, marked, next);
            lemma_follows_transitive(e, next, e.skip_run(done, count).0);
        }
    }
}

/// No event changes what is swept, nor takes the mark from a cell that hit a limit.
/// (Only clearing the cells does.)
#[verifier::rlimit(60)]
pub proof fn law_plan_and_limit_hits_stay(e: EngineView, event: Event)
    ensures
        follows(e, e.apply(event)),
{
    match event {
        Event::SkipMultiple(n) => {
            lemma_skip_run(e, 0, n);
        },
        Event::Poll(inp) => {
            lemma_poll(e, inp);
        },
        Event::Interpolated(d) => {
            lemma_finish_scan_detector(e, d, true);
        },
        Event::ManualNext(d) => {
            let r = e.manual_next(d);
            assert forall|k: (u8, usize)| #[trigger] hit(e.cal_cells, k) implies hit(
                r.cal_cells,
                k,
            ) by {}
            assert forall|k: (u8, usize)| #[trigger] hit(e.det_cells, k) implies hit(
                r.det_cells,
                k,
            ) by {}
        },
        _ => {},
    }
}

/// Nothing is sent while the link is not free.
#[verifier::rlimit(60)]
pub proof fn law_nothing_is_sent_on_a_busy_link(e: EngineView, inp: PollInput)
    requires
        !inp.can_send,
    ensures
        e.poll(inp).1 is Nothing,
{
    reveal(EngineView::poll_dispatch);
}

/// Once a sweep is over and all that it had to send is sent, it sends nothing more.
#[verifier::rlimit(60)]
pub proof fn law_an_idle_sweep_is_silent(e: EngineView, inp: PollInput)
    requires
        e.state is Idle,
        e.pending_sends.len() == 0,
    ensures
        e.poll(inp).1 is Nothing,
        e.poll(inp).0.state is Idle,
        e.poll(inp).0.pending_sends.len() == 0,
{
    reveal(EngineView::poll_dispatch);
}

/// What waits to be sent goes out before the sweep does anything else.
#[verifier::rlimit(60)]
pub proof fn law_pending_sends_go_first(e: EngineView, inp: PollInput)
    requires
        e.pending_sends.len() > 0,
        inp.can_send,
    ensures
        e.poll(inp).1 matches PollOutcome::Send { message, .. } && message == e.note_boost(
            inp,
        ).pending_message(e.pending_sends[0]),
        e.poll(inp).0.pending_sends == e.pending_sends.skip(1),
{
    reveal(EngineView::poll_dispatch);
}

/// After an abort the VTX is put into pit mode at the point where the sweep was, and
/// then the session is closed; nothing else is sent before or in between.
#[verifier::rlimit(60)]
pub proof fn law_an_abort_makes_the_vtx_safe(
    e: EngineView,
    first: PollInput,
    sent_at: u64,
    second: PollInput,
)
    requires
        e.wf(),
        e.levels.len() > 0,
        e.frequencies.len() > 0,
        first.can_send,
        second.can_send,
    ensures
        ({
            let (e1, o1) = e.abort().poll(first);
            let e2 = e1.sent(AfterSend::RequestVtxConfig, sent_at);
            let (e3, o2) = e2.poll(second);
            &&& o1 == PollOutcome::Send {
                message: Message::VtxConfig {
                    freq_mhz: e.freq_mhz(),
                    power: e.level(),
                    pitmode: true,
                },
                after: AfterSend::RequestVtxConfig,
            }
            &&& o2 == PollOutcome::Send {
                message: Message::CalibrationState {
                    session_active: false,
                    boost_mode: BoostMode::Auto,
                },
                after: AfterSend::Nothing,
            }
            &&& e3.state is Idle
            &&& e3.pending_sends =~= seq![PendingSend::RequestVtxConfig]
        }),
{
    reveal(EngineView::poll_dispatch);
}

/// The sweep ends as an abort does: pit mode at the last point, and a closed session.
#[verifier::rlimit(60)]
pub proof fn law_the_end_queues_pit_mode(e: EngineView)
    requires
        !e.has_next(),
    ensures
        e.advance_position().state is Idle,
        !e.advance_position().session_active,
        e.advance_position().pending_sends == e.pending_sends + seq![
            e.safe_state(),
            PendingSend::CalibrationState,
        ],
{
    assert(e.advance_position().pending_sends =~= e.pending_sends + seq![
        e.safe_state(),
        PendingSend::CalibrationState,
    ]);
}

/// The place of the current point among all points, in the order in which they are swept.
pub open spec fn ordinal(e: EngineView) -> int {
    e.freq_idx * e.levels.len() + e.level_idx
}

/// Each step of the sweep goes on to the next point: all levels at one frequency, then
/// all at the next; and it ends after the last.
#[verifier::rlimit(60)]
pub proof fn law_points_are_swept_in_order(e: EngineView)
    requires
        e.wf(),
        e.levels.len() > 0,
        e.frequencies.len() > 0,
        e.frequencies.len() <= usize::MAX,
        e.levels.len() <= usize::MAX,
    ensures
        e.has_next() <==> ordinal(e) + 1 < e.levels.len() * e.frequencies.len(),
        e.has_next() ==> ordinal(e.at_next()) == ordinal(e) + 1,
        e.has_next() ==> e.at_next().wf(),
        e.advance_position().is_active() <==> e.has_next(),
{
    let (l, f) = (e.levels.len() as int, e.frequencies.len() as int);
    let (i, j) = (e.level_idx as int, e.freq_idx as int);
    assert((j + 1) * l == j * l + l) by (nonlinear_arith);
    if j + 1 < f {
        assert((j + 1) * l < l * f) by (nonlinear_arith)
            requires
                j + 1 < f,
                l > 0,
        ;
    } else {
        assert(l * f == j * l + l) by (nonlinear_arith)
            requires
                j + 1 == f,
        ;
    }
}

/// The sweep after going on to the next point `k` times.
pub open spec fn points_on(e: EngineView, k: nat) -> EngineView
    decreases k,
{
    if k == 0 {
        e
    } else {
        points_on(e.at_next(), (k - 1) as nat)
    }
}

proof fn lemma_points_on(e: EngineView, k: nat)
    requires
        e.wf(),
        e.levels.len() > 0,
        e.frequencies.len() > 0,
        e.frequencies.len() <= usize::MAX,
        e.levels.len() <= usize::MAX,
        ordinal(e) + k < e.levels.len() * e.frequencies.len(),
    ensures
        ordinal(points_on(e, k)) == ordinal(e) + k,
        points_on(e, k).wf(),
        points_on(e, k).levels == e.levels,
        points_on(e, k).frequencies == e.frequencies,
    decreases k,
{
    if k > 0 {
        law_points_are_swept_in_order(e);
        lemma_points_on(e.at_next(), (k - 1) as nat);
    }
}

/// From its first point, a sweep comes to every combination of a frequency and a level.
pub proof fn law_every_point_is_reached(e: EngineView, freq_idx: nat, level_idx: nat)
    requires
        e.wf(),
        e.freq_idx == 0,
        e.level_idx == 0,
        e.frequencies.len() <= usize::MAX,
        e.levels.len() <= usize::MAX,
        freq_idx < e.frequencies.len(),
        level_idx < e.levels.len(),
    ensures
        points_on(e, freq_idx * e.levels.len() + level_idx).freq_idx == freq_idx,
        points_on(e, freq_idx * e.levels.len() + level_idx).level_idx == level_idx,
{
    let (l, f) = (e.levels.len(), e.frequencies.len());
    let k = freq_idx * l + level_idx;
    assert(k < l * f) by (nonlinear_arith)
        requires
            k == freq_idx * l + level_idx,
            level_idx < l,
            freq_idx + 1 <= f,
    ;
    assert(0 * l == 0) by (nonlinear_arith);
    lemma_points_on(e, k);
    let r = points_on(e, k);
    let (j, i) = (r.freq_idx as nat, r.level_idx as nat);
    assert(j == freq_idx && i == level_idx) by (nonlinear_arith)
        requires
            j * l + i == freq_idx * l + level_idx,
            i < l,
            level_idx < l,
    ;
}

/// From its first point, a sweep goes on as many times as there are points after it: all
/// levels at one frequency, then all at the next, each point once; and it stays at the
/// last.
pub proof fn law_points_follow_their_numbers(e: EngineView, k: nat)
    requires
        e.wf(),
        e.freq_idx == 0,
        e.level_idx == 0,
        e.frequencies.len() <= usize::MAX,
        e.levels.len() <= usize::MAX,
        k < e.levels.len() * e.frequencies.len(),
    ensures
        points_on(e, k).level_idx == k % e.levels.len(),
        points_on(e, k).freq_idx == k / e.levels.len(),
        points_on(e, k).has_next() <==> k + 1 < e.levels.len() * e.frequencies.len(),
        points_on(e, k).has_next() ==> points_on(e, k + 1) == points_on(e, k).at_next(),
        points_on(e, k).has_next() ==> (points_on(e, k).next_is_new_frequency() <==> (k + 1)
            % e.levels.len() == 0),
        !points_on(e, k).has_next() ==> points_on(e, k).level_idx == e.levels.len() - 1
            && points_on(e, k).freq_idx == e.frequencies.len() - 1,
{
    let (l, f) = (e.levels.len() as int, e.frequencies.len() as int);
    assert(l > 0 && f > 0) by (nonlinear_arith)
        requires
            0 <= k < l * f,
            l >= 0,
            f >= 0,
    ;
    assert(0 * l == 0) by (nonlinear_arith);
    lemma_points_on(e, k);
    let r = points_on(e, k);
    let (j, i) = (r.freq_idx as int, r.level_idx as int);
    lemma_fundamental_div_mod_converse(k as int, l, j, i);
    law_points_are_swept_in_order(r);
    lemma_one_point_more(e, k);
    if i + 1 < l {
        lemma_fundamental_div_mod_converse((k + 1) as int, l, j, i + 1);
    } else {
        assert((j + 1) * l == j * l + l) by (nonlinear_arith);
        lemma_fundamental_div_mod_converse((k + 1) as int, l, j + 1, 0);
    }
}

proof fn lemma_one_point_more(e: EngineView, k: nat)
    ensures
        points_on(e, k + 1) == points_on(e, k).at_next(),
    decreases k,
{
    if k > 0 {
        lemma_one_point_more(e.at_next(), (k - 1) as nat);
    }
    reveal_with_fuel(points_on, 2);
}

/// The cells after statuses were set on them one after the other.
pub open spec fn with_cells(
    cells: Map<(u8, usize), CellStatus>,
    calls: Seq<((u8, usize), CellStatus)>,
) -> Map<(u8, usize), CellStatus>
    decreases calls.len(),
{
    if calls.len() == 0 {
        cells
    } else {
        with_cell(with_cells(cells, calls.drop_last()), calls.last().0, calls.last().1)
    }
}

/// The status that was last set on a cell.
pub open spec fn last_set(calls: Seq<((u8, usize), CellStatus)>, key: (u8, usize)) -> Option<
    CellStatus,
>
    decreases calls.len(),
{
    if calls.len() == 0 {
        None
    } else if calls.last().0 == key {
        Some(calls.last().1)
    } else {
        last_set(calls.drop_last(), key)
    }
}

/// Setting the status of a cell changes no other cell.
pub proof fn law_a_status_changes_its_own_cell_only(
    cells: Map<(u8, usize), CellStatus>,
    key: (u8, usize),
    status: CellStatus,
    other: (u8, usize),
)
    requires
        other != key,
    ensures
        with_cell(cells, key, status).contains_key(other) == cells.contains_key(other),
        cells.contains_key(other) ==> with_cell(cells, key, status)[other] == cells[other],
{
}

/// However statuses are set on cells, one after the other: a cell that hits a limit once
/// keeps that mark, and any other holds the status that was last set on it, if any was.
pub proof fn law_a_cell_holds_its_last_status(
    cells: Map<(u8, usize), CellStatus>,
    calls: Seq<((u8, usize), CellStatus)>,
    key: (u8, usize),
)
    ensures
        hit(cells, key) || calls.contains((key, CellStatus::LimitHit)) ==> hit(
            with_cells(cells, calls),
            key,
        ),
        !hit(cells, key) && !calls.contains((key, CellStatus::LimitHit)) ==> match last_set(
            calls,
            key,
        ) {
            Some(status) => with_cells(cells, calls).contains_key(key) && with_cells(
                cells,
                calls,
            )[key] == status && status != CellStatus::LimitHit,
            None => with_cells(cells, calls).contains_key(key) == cells.contains_key(key) && (
            cells.contains_key(key) ==> with_cells(cells, calls)[key] == cells[key]),
        },
    decreases calls.len(),
{
    if calls.len() > 0 {
        let before = calls.drop_last();
        law_a_cell_holds_its_last_status(cells, before, key);
        assert(calls =~= before.push(calls.last()));
        assert(calls.contains((key, CellStatus::LimitHit)) <==> before.contains(
            (key, CellStatus::LimitHit),
        ) || calls.last() == (key, CellStatus::LimitHit)) by {
            if before.contains((key, CellStatus::LimitHit)) {
                let i = before.index_of((key, CellStatus::LimitHit));
                assert(calls[i] == before[i]);
            }
            if calls.last() == (key, CellStatus::LimitHit) {
                assert(calls[calls.len() - 1] == calls.last());
            }
            if calls.contains((key, CellStatus::LimitHit)) {
                let i = calls.index_of((key, CellStatus::LimitHit));
                if i < before.len() {
                    assert(before[i] == calls[i]);
                }
            }
        }
    }
}

/// Once the bias of a point is found or given up and no limit was hit at its level, the
/// search for the detector begins five millivolts towards less power, whichever sign the
/// DAC has, as far as its range goes.
pub proof fn law_the_detector_search_begins_with_less_power(
    e: EngineView,
    vbias_mv: i32,
    outcome: ScanPaOutcome,
)
    requires
        in_range(vbias_mv),
        outcome is Success || outcome is Uncalibrated,
        !e.hard_limits.contains_key(e.level()),
    ensures
        e.finish_scan_pa(vbias_mv, outcome).state matches EngineState::Automatic(
            AutomaticStep::ScanDetector(st),
        ) && st.vbias_mv == (if e.sign_inverted {
            if vbias_mv + 5 < VBIAS_MAX_MV {
                vbias_mv + 5
            } else {
                VBIAS_MAX_MV as int
            }
        } else if vbias_mv > 5 {
            vbias_mv - 5
        } else {
            0
        }),
{
}

/// Where a bias is sent for a scan, it is within the bounds of its level, and it is not
/// sent too soon after the last one. Any other is within the range of the DAC.
pub open spec fn request_is_safe(e: EngineView, inp: PollInput, outcome: PollOutcome) -> bool {
    match outcome {
        PollOutcome::Send { message, after: AfterSend::Scan(_) } => {
            &&& message matches Message::Calibration { level, mv: Some(mv), .. } && level
                == e.level() && e.allowed(level, mv as int)
            &&& !e.throttled(inp.now)
        },
        PollOutcome::Send { message, after: AfterSend::Manual } => {
            &&& message matches Message::Calibration { level, mv: Some(mv), .. } && level
                == e.level() && mv <= VBIAS_MAX_MV
            &&& !e.throttled(inp.now)
        },
        PollOutcome::Send { message, .. } => {
            message matches Message::Calibration { mv: Some(mv), .. } ==> mv <= VBIAS_MAX_MV
        },
        _ => true,
    }
}

#[verifier::rlimit(60)]
proof fn lemma_bounds(e: EngineView, level: u8)
    requires
        e.wf(),
    ensures
        0 <= e.bound_lo(level) <= e.bound_hi(level) <= VBIAS_MAX_MV,
{
    if e.hard_limits.contains_key(level) {
        assert(in_range(e.hard_limits[level]));
    }
}

#[verifier::rlimit(60)]
proof fn lemma_sample_is_safe(e: EngineView, inp: PollInput, st: ScanPaState)
    requires
        e.wf(),
    ensures
        request_is_safe(e, inp, e.sample_scan_pa(inp, st).1),
{
    lemma_bounds(e, e.level());
}

#[verifier::rlimit(60)]
proof fn lemma_tick_is_safe(e: EngineView, inp: PollInput, st: ScanPaState)
    requires
        e.wf(),
    ensures
        request_is_safe(e, inp, e.tick_scan_pa(inp, st).1),
{
    lemma_bounds(e, e.level());
    let d = EngineView { boost_settle_until: None, ..e };
    lemma_sample_is_safe(d, inp, st);
    match watch_peak(st, inp) {
        Some(watched) => {
            lemma_sample_is_safe(d, inp, ScanPaState { fine_settle_until: None, ..watched });
        },
        None => {},
    }
}

#[verifier::rlimit(60)]
proof fn lemma_detector_tick_is_safe(e: EngineView, inp: PollInput, st: ScanDetectorState)
    requires
        e.wf(),
    ensures
        request_is_safe(e, inp, e.tick_scan_detector(inp, st).1),
{
    lemma_bounds(e, e.level());
}

#[verifier::rlimit(60)]
proof fn lemma_entering_is_safe(e: EngineView, inp: PollInput)
    requires
        e.wf(),
        e.levels.len() > 0,
    ensures
        request_is_safe(e, inp, e.enter_point(inp).1),
{
    let st = e.first_scan(inp.now);
    let text = progress_text(SweepOp::ScanPa, pa_phase_text(st.phase), e.freq_mhz(), None);
    let t = e.with_level_status(e.level(), LevelStatusView::InProgress(text));
    assert(e.levels.contains(e.level()));
    assert(t.wf());
    lemma_tick_is_safe(t, inp, st);
}

#[verifier::rlimit(60)]
proof fn lemma_automatic_is_safe(e: EngineView, inp: PollInput, step: AutomaticStep)
    requires
        e.wf(),
        e.state == EngineState::Automatic(step),
    ensures
        request_is_safe(e, inp, e.poll_automatic(inp, step).1),
{
    let watched = e.watch_connection(inp, e.scan_vbias_mv());
    let d = EngineView { state: EngineState::Idle, ..watched };
    if !e.trips(inp) {
        match step {
            AutomaticStep::EnteringPoint => {
                lemma_entering_is_safe(d, inp);
            },
            AutomaticStep::ScanPa(st) => {
                lemma_tick_is_safe(d, inp, st);
            },
            AutomaticStep::ScanDetector(st) => {
                lemma_detector_tick_is_safe(d, inp, st);
            },
        }
    }
}

/// Every bias that a scan sends is within the bounds of its level, and every other
/// one within the range of the DAC. Those of a scan and those that the user sets have
/// time between them.
#[verifier::rlimit(60)]
pub proof fn law_requests_stay_within_bounds(e: EngineView, inp: PollInput)
    requires
        e.wf(),
    ensures
        request_is_safe(e, inp, e.poll(inp).1),
{
    let n = e.note_boost(inp);
    match n.state {
        EngineState::Automatic(step) => {
            lemma_automatic_is_safe(n, inp, step);
        },
        EngineState::Manual => {
            assert(request_is_safe(n, inp, n.poll_manual(inp).1));
        },
        _ => {},
    }
    assert(request_is_safe(e, inp, e.poll_dispatch(inp).1)) by {
        reveal(EngineView::poll_dispatch);
    }
}

/// Where the VTX fell silent at a bias, the level is limited to a bias with less power
/// once it answers again: less by the backoff, or the end of the range.
#[verifier::rlimit(60)]
pub proof fn law_a_silent_vtx_limits_its_level(
    e: EngineView,
    level: u8,
    freq_mhz: u16,
    lost_at: i32,
    reason: ConnectionLossReason,
    resume: ResumeMode,
    mv: int,
)
    requires
        in_range(lost_at),
        !(reason is Meter),
    ensures
        ({
            let r = e.auto_resume(level, freq_mhz, lost_at, reason, resume);
            &&& r.state == resumed(resume)
            &&& r.allowed(level, mv) && !e.sign_inverted ==> mv <= clamped(
                lost_at - HEARTBEAT_BACKOFF_MV,
                0,
                VBIAS_MAX_MV as int,
            )
            &&& r.allowed(level, mv) && e.sign_inverted ==> mv >= clamped(
                lost_at + HEARTBEAT_BACKOFF_MV,
                0,
                VBIAS_MAX_MV as int,
            )
            &&& resume is Manual ==> r.allowed(level, r.manual_dac_mv as int)
        }),
{
}

/// A meter that fell silent leaves the bounds and the bias as they were.
#[verifier::rlimit(60)]
pub proof fn law_a_silent_meter_changes_no_bound(
    e: EngineView,
    level: u8,
    freq_mhz: u16,
    lost_at: i32,
    resume: ResumeMode,
)
    ensures
        ({
            let r = e.auto_resume(level, freq_mhz, lost_at, ConnectionLossReason::Meter, resume);
            &&& r.hard_limits == e.hard_limits
            &&& r.manual_dac_mv == e.manual_dac_mv
            &&& r.state == resumed(resume)
        }),
{
}

/// While the amplifier settles, a scan stays where it is: no sample is judged.
#[verifier::rlimit(60)]
pub proof fn law_nothing_is_judged_while_the_amplifier_settles(
    e: EngineView,
    inp: PollInput,
    st: ScanPaState,
)
    requires
        e.boost_settling(inp.now),
    ensures
        ({
            let (r, outcome) = e.tick_scan_pa(inp, st);
            let kept = EngineState::Automatic(AutomaticStep::ScanPa(ScanPaState { wait: None, ..st }));
            let after = match outcome {
                PollOutcome::Send { after, .. } => r.sent(after, inp.now),
                _ => r,
            };
            &&& after.state == kept
            &&& after.pending_result == e.pending_result
        }),
{
}

/// A bias is reported as found only where the power at it was measured to be at least
/// the target, in a fine search.
#[verifier::rlimit(60)]
pub proof fn law_success_means_that_the_target_was_reached(
    e: EngineView,
    inp: PollInput,
    st: ScanPaState,
)
    requires
        !(e.pending_result matches Some(r) && r.success),
        e.judge_scan_pa(inp, st).pending_result matches Some(r) && r.success,
    ensures
        st.phase is Fine,
        e.target().at_most(inp.samples.average),
        e.judge_scan_pa(inp, st).pending_result->0.level == e.level(),
        e.judge_scan_pa(inp, st).pending_result->0.vbias_mv == Some(
            clamped(st.vbias_mv as int, 0, VBIAS_MAX_MV as int) as u16,
        ),
{
}

/// A user who has set a meter to a band is not asked again while the band stays nearest.
#[verifier::rlimit(60)]
pub proof fn law_one_prompt_for_one_band(
    e: EngineView,
    bands: Seq<u32>,
    a: u16,
    b: u16,
    resume: ResumeMode,
)
    requires
        e.capability == (CapabilityView::ManualBand { bands_mhz: bands }),
        nearest(bands, a as u32) == nearest(bands, b as u32),
    ensures
        ({
            let first = e.begin_frequency(a, resume);
            let second = first.begin_frequency(b, resume);
            &&& second.state == resumed(resume)
            &&& second.pending_frequency_push == Some(b)
        }),
{
}

/// A frequency that the user confirms is pushed to the VTX, and the sweep goes on.
#[verifier::rlimit(60)]
pub proof fn law_a_confirmed_frequency_is_pushed(e: EngineView, freq_mhz: u16, resume: ResumeMode)
    requires
        e.state == (EngineState::AwaitingFreqConfirm { freq_mhz, resume }),
    ensures
        e.confirm_frequency().state == resumed(resume),
        e.confirm_frequency().pending_frequency_push == Some(freq_mhz),
{
}

/// The sweep is not paused, and knows as before how long an end has been silent.
spec fn goes_on(e: EngineView, r: EngineView) -> bool {
    !(r.state is ConnectionLost) && r.unresponsive_since == e.unresponsive_since
}

#[verifier::rlimit(60)]
proof fn lemma_finishing_goes_on(e: EngineView, vbias_mv: i32, outcome: ScanPaOutcome)
    ensures
        goes_on(e, e.finish_scan_pa(vbias_mv, outcome)),
{
}

#[verifier::rlimit(60)]
proof fn lemma_scan_pa_goes_on(e: EngineView, inp: PollInput, st: ScanPaState)
    requires
        e.state is Idle,
    ensures
        goes_on(e, e.tick_scan_pa(inp, st).0),
{
    let d = EngineView { boost_settle_until: None, ..e };
    lemma_finishing_goes_on(d, st.vbias_mv, ScanPaOutcome::Success);
    lemma_finishing_goes_on(d, st.vbias_mv, ScanPaOutcome::Uncalibrated);
    lemma_finishing_goes_on(d, st.vbias_mv, ScanPaOutcome::PaFailure);
    lemma_finishing_goes_on(d, st.vbias_mv, ScanPaOutcome::NotSettled);
    assert(goes_on(d, d.judge_scan_pa(inp, st)));
    match watch_peak(st, inp) {
        Some(watched) => {
            let settled = ScanPaState { fine_settle_until: None, ..watched };
            assert(goes_on(d, d.judge_scan_pa(inp, settled)));
        },
        None => {},
    }
}

#[verifier::rlimit(60)]
proof fn lemma_scan_detector_goes_on(e: EngineView, inp: PollInput, st: ScanDetectorState)
    requires
        e.state is Idle,
    ensures
        goes_on(e, e.tick_scan_detector(inp, st).0),
{
    let d = EngineView { boost_settle_until: None, ..e };
    match st.last_reading {
        Some(reading) => {
            assert(goes_on(d, d.finish_scan_detector(reading.detector_mv, false)));
        },
        None => {},
    }
}

#[verifier::rlimit(60)]
proof fn lemma_entering_goes_on(e: EngineView, inp: PollInput)
    requires
        e.state is Idle,
    ensures
        goes_on(e, e.enter_point(inp).0),
{
    let st = e.first_scan(inp.now);
    let text = progress_text(SweepOp::ScanPa, pa_phase_text(st.phase), e.freq_mhz(), None);
    lemma_scan_pa_goes_on(
        e.with_level_status(e.level(), LevelStatusView::InProgress(text)),
        inp,
        st,
    );
}

#[verifier::rlimit(60)]
proof fn lemma_automatic_goes_on(e: EngineView, inp: PollInput, step: AutomaticStep)
    requires
        e.state == EngineState::Automatic(step),
        inp.can_send,
        !e.trips(inp),
    ensures
        goes_on(e.watch_connection(inp, e.scan_vbias_mv()), e.poll_automatic(inp, step).0),
{
    let watched = e.watch_connection(inp, e.scan_vbias_mv());
    let d = EngineView { state: EngineState::Idle, ..watched };
    match step {
        AutomaticStep::EnteringPoint => {
            lemma_entering_goes_on(d, inp);
        },
        AutomaticStep::ScanPa(st) => {
            lemma_scan_pa_goes_on(d, inp, st);
        },
        AutomaticStep::ScanDetector(st) => {
            lemma_scan_detector_goes_on(d, inp, st);
        },
    }
}

/// A sweep whose VTX or meter is silent goes on for a while, and is then paused at the
/// point and the bias where it is.
#[verifier::rlimit(60)]
pub proof fn law_long_silence_pauses_a_sweep(e: EngineView, inp: PollInput)
    requires
        e.wf(),
        e.state is Automatic || e.state is Manual,
        e.pending_sends.len() == 0,
        inp.can_send,
        !(inp.vtx_ready && inp.meter_ready),
    ensures
        e.silence_is_over_limit(inp.now) ==> e.poll(inp).0.state == (EngineState::ConnectionLost {
            level: e.level(),
            freq_mhz: e.freq_mhz(),
            vbias_mv_at_loss: if e.state is Manual {
                e.manual_dac_mv
            } else {
                e.scan_vbias_mv()
            },
            reason: EngineView::loss_reason(inp.vtx_ready, inp.meter_ready),
            resume: e.resume_mode(),
        }),
        e.silence_is_over_limit(inp.now) ==> e.poll(inp).1 is Nothing,
        !e.silence_is_over_limit(inp.now) ==> !(e.poll(inp).0.state is ConnectionLost),
        e.unresponsive_since is None ==> e.poll(inp).0.unresponsive_since == Some(inp.now),
        e.unresponsive_since is Some && !e.silence_is_over_limit(inp.now) ==> e.poll(
            inp,
        ).0.unresponsive_since == e.unresponsive_since,
{
    let n = e.note_boost(inp);
    match n.state {
        EngineState::Automatic(step) => {
            if !n.trips(inp) {
                lemma_automatic_goes_on(n, inp, step);
            }
            assert(e.poll_dispatch(inp) == n.poll_automatic(inp, step)) by {
                reveal(EngineView::poll_dispatch);
            }
        },
        _ => {
            assert(e.poll_dispatch(inp) == n.poll_manual(inp)) by {
                reveal(EngineView::poll_dispatch);
            }
        },
    }
}

/// Once both ends answer, no silence is left to count.
#[verifier::rlimit(60)]
pub proof fn law_an_answer_ends_the_silence(e: EngineView, inp: PollInput)
    requires
        e.wf(),
        e.state is Automatic || e.state is Manual,
        e.pending_sends.len() == 0,
        inp.can_send,
        inp.vtx_ready,
        inp.meter_ready,
    ensures
        e.poll(inp).0.unresponsive_since is None,
        !(e.poll(inp).0.state is ConnectionLost),
{
    let n = e.note_boost(inp);
    match n.state {
        EngineState::Automatic(step) => {
            lemma_automatic_goes_on(n, inp, step);
            assert(e.poll_dispatch(inp) == n.poll_automatic(inp, step)) by {
                reveal(EngineView::poll_dispatch);
            }
        },
        _ => {
            assert(e.poll_dispatch(inp) == n.poll_manual(inp)) by {
                reveal(EngineView::poll_dispatch);
            }
        },
    }
}

/// A paused sweep waits until both ends answer, and then goes on by itself: the
/// frequency is set again, and the point is taken up anew.
#[verifier::rlimit(60)]
pub proof fn law_a_paused_sweep_goes_on_by_itself(e: EngineView, inp: PollInput)
    requires
        e.state is ConnectionLost,
        e.pending_sends.len() == 0,
    ensures
        e.poll(inp).1 is Nothing,
        !(inp.vtx_ready && inp.meter_ready) ==> e.poll(inp).0.state == e.state,
        inp.vtx_ready && inp.meter_ready ==> e.poll(inp).0.state == resumed(
            e.state->ConnectionLost_resume,
        ),
        inp.vtx_ready && inp.meter_ready ==> e.poll(inp).0.pending_frequency_push == Some(
            e.state->ConnectionLost_freq_mhz,
        ),
{
    reveal(EngineView::poll_dispatch);
}

#[verifier::rlimit(60)]
proof fn lemma_skip_run_goes_on(e: EngineView, done: nat, count: nat)
    requires
        e.wf(),
        e.levels.len() > 0,
        e.frequencies.len() > 0,
        e.frequencies.len() <= usize::MAX,
        e.levels.len() <= usize::MAX,
        done <= count,
        e.skip_run(done, count).1 is Some,
    ensures
        ({
            let r = e.skip_run(done, count).0;
            &&& r.pending_sends == e.pending_sends
            &&& r.hard_limits == e.hard_limits
            &&& r.sign_inverted == e.sign_inverted
            &&& r.levels == e.levels
            &&& r.frequencies == e.frequencies
            &&& ordinal(r) == ordinal(e) + count - done
        }),
    decreases count - done,
{
    if done < count {
        let marked = e.skip_mark(done == 0);
        assert(e.levels.contains(e.level()));
        assert(marked.wf());
        law_points_are_swept_in_order(marked);
        lemma_skip_run_goes_on(marked.at_next(), done + 1, count);
    }
}

/// Skipping goes on `count` points further, unless the sweep ends before. On the way
/// the VTX is given the least power without its amplifier, then pit mode at the new
/// point, and only then the amplifier back.
#[verifier::rlimit(60)]
pub proof fn law_a_skip_is_safe(e: EngineView, count: nat)
    requires
        e.wf(),
        e.can_skip(count),
        e.frequencies.len() <= usize::MAX,
        e.levels.len() <= usize::MAX,
        e.skip_run(0, count).1 is Some,
    ensures
        ({
            let r = e.skip_multiple(count);
            let low = ramp_start(e.sign_inverted, e.bound_lo(e.level()), e.bound_hi(e.level()));
            &&& ordinal(r) == ordinal(e) + count
            &&& r.pending_sends == e.pending_sends + seq![
                PendingSend::DacLow { level: e.level(), vbias_mv: low as u16 },
                r.safe_state(),
                PendingSend::RestoreBoost { level: r.level() },
            ]
        }),
{
    lemma_skip_run_goes_on(e, 0, count);
    let r = e.skip_multiple(count);
    let low = ramp_start(e.sign_inverted, e.bound_lo(e.level()), e.bound_hi(e.level()));
    assert(r.pending_sends =~= e.pending_sends + seq![
        PendingSend::DacLow { level: e.level(), vbias_mv: low as u16 },
        r.safe_state(),
        PendingSend::RestoreBoost { level: r.level() },
    ]);
}

/// How far the bias is from the end of its bounds that gives the most power.
pub open spec fn room(e: EngineView, st: ScanPaState) -> int {
    if e.sign_inverted {
        st.vbias_mv - e.bound_lo(e.level())
    } else {
        e.bound_hi(e.level()) - st.vbias_mv
    }
}

/// A search for a bias comes to an end: each measurement that is judged in a coarse
/// ramp or a fine search either ends the search, or turns the ramp into the fine
/// search, or leaves less room for the bias.
#[verifier::rlimit(60)]
pub proof fn law_a_search_for_a_bias_ends(e: EngineView, inp: PollInput, st: ScanPaState)
    requires
        e.wf(),
        e.levels.len() > 0,
        scan_pa_ok(st),
        !(st.phase is Settle),
    ensures
        e.judge_scan_pa(inp, st).state matches EngineState::Automatic(
            AutomaticStep::ScanPa(next),
        ) ==> {
            ||| st.phase is CoarseRamp && next.phase is Fine
            ||| next.phase == st.phase && 0 <= room(e, next) < room(e, st)
        },
{
    let u = up(e.sign_inverted);
    assert forall|n: int| #[trigger] (u * n) == if e.sign_inverted {
        -n
    } else {
        n
    } by {
        assert(u * n == if e.sign_inverted {
            -n
        } else {
            n
        }) by (nonlinear_arith)
            requires
                u == if e.sign_inverted {
                    -1int
                } else {
                    1
                },
        ;
    }
}

} // verus!

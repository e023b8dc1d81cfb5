//! Laws on the worker: who is there, what is sent, and what a frame says.

use vstd::prelude::*;

use crate::calibration_engine::model::EngineView;
use crate::calibration_engine::types::{Samples, SweepResult};
use crate::conn_status::PortState;
use crate::msp::frame::MspFrameView;
use crate::msp::{
    pa_calibration_bytes,
    PaCalibration,
    PaCalibrationReading,
    PaCalibrationView,
};
use crate::msp::laws::law_pa_calibration_reads_back;
use crate::pa_table::{
    law_an_entry_is_found_by_its_index,
    level_targets,
    spec_sign_inverted,
    stored_bias,
    swept_frequencies,
};
use crate::power_meter::PowerMeterKind;
use crate::state::VtxStatus;
use crate::vtxtable::{VtxSelectionState, VtxTableView};
use crate::worker::{
    canvas_after,
    config_answer,
    connect_commands,
    heard_lately,
    level_entries,
    planned,
    port_state_after,
    queue_after,
    reading_in,
    result_applied,
    selection_after,
    spec_status_of,
    start_error,
    state_name,
    time_left,
    with_stored_bias,
    OutgoingView,
    StartError,
    TableReadingView,
    Worker,
};

verus! {

/// A device that was heard of counts as ready for half a second, one that never was does
/// not; a port is ready with its device, and lost once its device has fallen silent.
pub proof fn law_a_device_is_ready_for_half_a_second(state: PortState, seen: u64, now: u64)
    ensures
        heard_lately(Some(seen), now) <==> now < seen + 500_000_000,
        !heard_lately(None, now),
        port_state_after(state, true) is Ready,
        state is Ready ==> port_state_after(state, false) is LostCommunication,
        !(state is Ready) ==> port_state_after(state, false) == state,
{
}

/// A port that is opened is told one thing, or three where the overlay is on: to use what is
/// selected, but in pit mode; that its screen is in use; and to clear it.
pub proof fn law_opening_tells_one_thing_or_three(
    overlay: bool,
    selection: VtxSelectionState,
    table: VtxTableView,
)
    ensures
        ({
            let all = connect_commands(overlay, selection, table);
            let quiet = VtxSelectionState { pitmode: true, ..selection };
            &&& all.len() == if overlay {
                3int
            } else {
                1
            }
            &&& all[0] == (OutgoingView {
                is_v2: false,
                function: 88,
                payload: quiet.config_bytes(table),
            })
            &&& overlay ==> all[1] == (OutgoingView {
                is_v2: false,
                function: 182,
                payload: seq![0u8],
            }) && all[2] == (OutgoingView { is_v2: false, function: 182, payload: seq![2u8] })
        }),
{
}

/// The VTX is answered just where there is something to answer with, and then with what is
/// selected.
pub proof fn law_an_answer_needs_a_table(
    ready: bool,
    selection: VtxSelectionState,
    table: VtxTableView,
)
    ensures
        config_answer(ready, selection, table) is Some <==> ready && table.bands.len() > 0
            && table.power_levels.len() > 0,
        config_answer(ready, selection, table) matches Some(p) ==> p == selection.config_bytes(
            table,
        ),
{
}

/// A status is what was read, and the power that the first entry of its level has.
pub proof fn law_a_status_is_what_was_read(
    r: PaCalibrationReading,
    table: Seq<PaCalibration>,
    i: int,
)
    ensures
        ({
            let s = spec_status_of(r, table);
            &&& s.level == r.power_level
            &&& s.boost_on == r.boost_on
            &&& s.rtc6705_level == r.rtc6705_level
            &&& s.frequency_mhz == r.frequency_mhz
            &&& s.vbias_mv == r.vref_mv
            &&& s.detector_mv == r.detector_mv
            &&& s.pid_active == r.pid_active
            &&& s.session_active == r.session_active
            &&& s.ntc_raw == r.ntc_raw
            &&& s.pa_temp_c_x10 == r.pa_temp_c_x10
            &&& s.mcu_temp_c_x10 is None
            &&& 0 <= i < table.len() && table[i].idx == r.power_level && (forall|k: int|
                0 <= k < i ==> (#[trigger] table[k]).idx != r.power_level) ==> s.power_mw == Some(
                table[i].m_w,
            )
            &&& (forall|k: int|
                0 <= k < table.len() ==> (#[trigger] table[k]).idx != r.power_level)
                ==> s.power_mw is None
        }),
{
    law_an_entry_is_found_by_its_index(table, r.power_level, i);
}

/// The bias of a point that the table holds becomes the bias of manual mode, within the
/// range of the converter, and is sent; where the table holds none, all stays. Nothing but
/// the bias changes.
pub proof fn law_a_stored_bias_is_taken_up(
    e: EngineView,
    table: Seq<PaCalibration>,
    level: u8,
    freq_idx: usize,
)
    ensures
        with_stored_bias(e, table, None) == e,
        ({
            let n = with_stored_bias(e, table, Some((level, freq_idx)));
            match stored_bias(table, level, freq_idx as int) {
                Some(mv) => {
                    &&& mv <= 3300 ==> n.manual_dac_mv == mv
                    &&& mv > 3300 ==> n.manual_dac_mv == 3300
                    &&& n.manual_send_pending
                    &&& n == (EngineView {
                        manual_dac_mv: n.manual_dac_mv,
                        manual_send_pending: true,
                        ..e
                    })
                },
                None => n == e,
            }
        }),
{
}

/// A sweep starts just where both devices are ready and there is something to sweep. The
/// first thing that is missing is what is said to be.
pub proof fn law_a_sweep_needs_both_devices_and_work(
    vtx: PortState,
    meter: PortState,
    levels: Seq<u8>,
    table: Seq<PaCalibration>,
)
    ensures
        ({
            let r = start_error(vtx, meter, levels, table);
            let there = vtx is Ready && meter is Ready;
            &&& r is None <==> there && levels.len() > 0 && swept_frequencies(table).len() > 0
            &&& !there ==> r == Some(StartError::NotConnected { vtx, meter })
            &&& r == Some(StartError::NoFrequencies) <==> there && swept_frequencies(table).len()
                == 0
            &&& r == Some(StartError::NoLevels) <==> there && levels.len() == 0
                && swept_frequencies(table).len() > 0
        }),
{
}

/// A planned sweep is of these levels, by what the table says of them, as fast as the meter
/// can be read, and stands before its first point.
pub proof fn law_a_planned_sweep_follows_the_table(
    levels: Seq<u8>,
    table: Seq<PaCalibration>,
    kind: PowerMeterKind,
)
    ensures
        ({
            let e = planned(levels, table, kind);
            &&& e.levels == levels
            &&& e.frequencies == swept_frequencies(table)
            &&& e.targets == level_targets(table, levels)
            &&& e.sign_inverted == spec_sign_inverted(table)
            &&& e.sweep_hz == kind.fastest_hz()
            &&& e.state is Idle
            &&& e.level_idx == 0 && e.freq_idx == 0
            &&& e.pending_sends.len() == 0 && e.pending_result is None
            &&& !e.manual_send_pending
        }),
{
}

/// What is written to the VTX are the entries of the table that are power levels: each that
/// is one, none that is not, and in their order.
pub proof fn law_every_level_is_written(table: Seq<PaCalibration>)
    ensures
        level_entries(table) == table.filter(|e: PaCalibration| e.idx != 0),
    decreases table.len(),
{
    let is_level = |e: PaCalibration| e.idx != 0;
    reveal(Seq::filter);
    if table.len() > 0 {
        law_every_level_is_written(table.drop_last());
    }
    assert(level_entries(table) =~= table.filter(is_level));
}

/// A frame is about one thing at most: a frame of one function leaves what others tell as
/// it was, and one that is too short to be read leaves all.
pub proof fn law_a_frame_is_about_one_thing(
    selection: VtxSelectionState,
    canvas: Option<(u8, u8)>,
    f: MspFrameView,
)
    ensures
        f.function != 88 || f.payload.len() < 15 ==> selection_after(selection, f) == selection,
        f.function != 188 || f.payload.len() < 2 ==> canvas_after(canvas, f) == canvas,
        f.function != 0x4802 || f.payload.len() < 5 ==> reading_in(f) is None,
        f.function == 0x4802 && f.payload.len() >= 5 ==> reading_in(f) is Some,
        f.function == 188 && f.payload.len() >= 2 ==> canvas_after(canvas, f) == Some(
            (f.payload[0], f.payload[1]),
        ),
{
}

/// What the VTX says that it uses becomes what is selected.
pub proof fn law_the_vtx_says_what_is_selected(selection: VtxSelectionState, f: MspFrameView)
    requires
        f.function == 88,
        f.payload.len() >= 15,
    ensures
        ({
            let s = selection_after(selection, f);
            &&& s.selected_band == f.payload[1]
            &&& s.selected_channel == f.payload[2]
            &&& s.selected_power == f.payload[3]
            &&& s.pitmode <==> f.payload[4] != 0
            &&& s.selected_freq_mhz == f.payload[5] + 256 * f.payload[6]
        }),
{
}

/// A status is drawn whole: the screen is cleared, the rows are drawn, and last it is shown.
/// One that comes before all of the last one is sent is not drawn, and none is while the
/// overlay is off.
pub proof fn law_a_status_is_drawn_whole(queue: Seq<Seq<u8>>, overlay: bool, status: VtxStatus)
    ensures
        ({
            let q = queue_after(queue, overlay, status);
            &&& queue.len() > 0 ==> q == queue
            &&& !overlay ==> q == queue
            &&& overlay && queue.len() == 0 ==> {
                &&& q.len() == 11
                &&& q[0] == seq![2u8]
                &&& q[10] == seq![4u8]
                &&& forall|i: int| 1 <= i < 10 ==> (#[trigger] q[i])[0] == 3 && q[i][1] == i
            }
        }),
{
}

/// An entry that comes is kept as it is, behind those that came before, and another is then
/// waited for as long as three tenths of a second. What is no entry changes nothing.
pub proof fn law_an_entry_that_comes_is_kept(
    reading: TableReadingView,
    e: PaCalibrationView,
    f: MspFrameView,
    now: u64,
)
    requires
        e.value.len() == 7,
        e.detector.len() == 7,
        now + 300_000_000 <= u64::MAX,
    ensures
        f.function != 0x4801 ==> reading.after(f, now) == Some(reading),
        f.function == 0x4801 && f.payload.len() < 31 ==> reading.after(f, now) is None,
        f.function == 0x4801 && f.payload == pa_calibration_bytes(e) ==> reading.after(f, now)
            == Some(
            TableReadingView {
                entries: reading.entries.push(
                    PaCalibrationView {
                        ext_pa_enable: false,
                        rtc6705_level: 0,
                        dac_sign_inverted: false,
                        ..e
                    },
                ),
                deadline: (now + 300_000_000) as u64,
            },
        ),
{
    law_pa_calibration_reads_back(e);
}

/// What is left of the time to a deadline fills it up; none is left once it is there.
pub proof fn law_waiting_ends_at_the_deadline(deadline: u64, now: u64)
    ensures
        time_left(deadline, now) matches Some(t) ==> t > 0 && now + t == deadline,
        time_left(deadline, now) is None <==> now >= deadline,
{
}

/// A turn of the sweep learns the time, the newest reading, whether the link is free, and
/// who was heard of within half a second.
pub proof fn law_a_turn_learns_who_is_there(
    w: Worker,
    now: u64,
    reading: Option<PaCalibrationReading>,
    samples: Samples,
)
    ensures
        ({
            let i = w.poll_input(now, reading, samples);
            &&& i.now == now && i.latest_reading == reading && i.samples == samples
            &&& i.reading_seq == w.meter.reading_seq
            &&& i.can_send <==> w.link is Some && w.link->0.can_send_at <= now
            &&& i.vtx_ready <==> w.vtx_last_seen is Some && now < w.vtx_last_seen->0 + 500_000_000
            &&& i.meter_ready <==> w.meter_last_seen is Some && now < w.meter_last_seen->0
                + 500_000_000
        }),
{
}

/// A result of no success changes nothing in the table, and one of a level changes no entry
/// of another; what changes keeps its level and its power.
pub proof fn law_a_result_changes_its_own_level(
    before: Seq<PaCalibration>,
    now: Seq<PaCalibration>,
    result: SweepResult,
    i: int,
)
    requires
        result_applied(before, now, result),
        0 <= i < before.len(),
    ensures
        now.len() == before.len(),
        !result.success || before[i].idx != result.level ==> now[i]@ == before[i]@,
        now[i]@.idx == before[i]@.idx,
        now[i]@.m_w == before[i]@.m_w,
        result.success && before[i].idx == result.level && result.freq_idx < 7
            && result.vbias_mv is Some && before[i]@.value.len() == 7 && (forall|k: int|
            0 <= k < i ==> (#[trigger] before[k]).idx != result.level)
            ==> now[i]@.value[result.freq_idx as int] == result.vbias_mv->0,
        result.success && before[i].idx == result.level && result.freq_idx < 7
            && result.detector_mv is Some && before[i]@.detector.len() == 7 && (forall|k: int|
            0 <= k < i ==> (#[trigger] before[k]).idx != result.level)
            ==> now[i]@.detector[result.freq_idx as int] == result.detector_mv->0,
{
}

/// The states of a port have names of their own.
pub proof fn law_port_states_are_told_apart(a: PortState, b: PortState)
    ensures
        state_name(a) == state_name(b) ==> a == b,
{
    reveal_strlit("Disconnected");
    reveal_strlit("Connecting");
    reveal_strlit("Ready");
    reveal_strlit("LostCommunication");
    reveal_strlit("Disconnecting");
    assert("Disconnected"@.len() == 12 && "Connecting"@.len() == 10 && "Ready"@.len() == 5);
    assert("LostCommunication"@.len() == 17 && "Disconnecting"@.len() == 13);
}

/// An error tells for which command it is, and what is missing: the connection, the
/// frequencies or the levels.
pub proof fn law_start_errors_are_told_apart(a: StartError, b: StartError, command: Seq<char>)
    ensures
        a.words(command).len() > command.len(),
        a.words(command).take(command.len() as int) == command,
        a.words(command) == b.words(command) ==> {
            &&& a is NotConnected <==> b is NotConnected
            &&& a is NoFrequencies <==> b is NoFrequencies
            &&& a is NoLevels <==> b is NoLevels
        },
{
    lemma_an_error_behind_its_command(a, command);
    lemma_an_error_behind_its_command(b, command);
}

proof fn lemma_an_error_behind_its_command(e: StartError, command: Seq<char>)
    ensures
        ({
            let (w, n) = (e.words(command), command.len() as int);
            &&& w.len() > n + 5
            &&& w.take(n) == command
            &&& e is NotConnected <==> w[n] == ' '
            &&& e is NoFrequencies ==> w[n] == ':' && w[n + 5] == 'f'
            &&& e is NoLevels ==> w[n] == ':' && w[n + 5] == 'p'
        }),
{
    reveal_strlit(" requested while not fully connected (vtx=");
    reveal_strlit(": no frequency breakpoints in the PA table -- Refresh it first");
    reveal_strlit(": no power levels selected");
    assert(" requested while not fully connected (vtx="@[0] == ' ');
    assert(" requested while not fully connected (vtx="@.len() > 6);
    assert(": no frequency breakpoints in the PA table -- Refresh it first"@[0] == ':');
    assert(": no frequency breakpoints in the PA table -- Refresh it first"@[5] == 'f');
    assert(": no power levels selected"@[0] == ':');
    assert(": no power levels selected"@[5] == 'p');
    assert(e.words(command).take(command.len() as int) =~= command);
}

} // verus!

use vtx_tool::calibration_engine::types::{PollOutcome, Samples};
use vtx_tool::conn_status::PortState;
use vtx_tool::msp::frame::MspFrame;
use vtx_tool::msp::function::{PACALIBRATION, PACALTABLE, SET_PACALTABLE};
use vtx_tool::msp::{encode_pa_calibration, PaCalibration};
use vtx_tool::power::Power;
use vtx_tool::power_meter::PowerMeterKind;
use vtx_tool::vtxtable::{VtxSelectionState, VtxTableConfig};
use vtx_tool::worker::{
    config_frame, format_time_hms, is_ready, next_port_state, no_config_text, ConfigReading,
    FrameAction, StartError, Started, TableReading, Worker, QUIET_PERIOD, READY_WINDOW,
};

const MS: u64 = 1_000_000;

fn table() -> VtxTableConfig {
    VtxTableConfig::parse_betaflight_cli(
        "vtxtable band 1 A A CUSTOM 5865 5845\nvtxtable powervalues 25 400",
    )
    .unwrap()
}

fn pa_table() -> Vec<PaCalibration> {
    let frequencies = PaCalibration {
        idx: 0,
        value: [5700, 5900, 0, 0, 0, 0, 0],
        ..PaCalibration::default()
    };
    let level = PaCalibration {
        idx: 2,
        m_w: 200,
        value: [1000, 1100, 0, 0, 0, 0, 0],
        ..PaCalibration::default()
    };
    vec![frequencies, level]
}

fn at() -> String {
    "01:02:03".to_string()
}

fn ready_worker() -> Worker {
    let mut w = Worker::new(0);
    w.connect_vtx();
    w.vtx_opened("COM1".to_string(), 0, at(), &VtxSelectionState::default(), &table());
    w.connect_meter(PowerMeterKind::ImmersionRcV2);
    w.meter_opened("COM2".to_string(), 0);
    w.table_read(pa_table());
    w
}

fn frame(function: u16, payload: Vec<u8>) -> MspFrame {
    MspFrame { is_v2: true, msp_type: b'>', function, payload }
}

#[test]
fn opening_begins_with_pit_mode() {
    let mut w = Worker::new(0);
    assert!(w.connect_vtx());
    assert_eq!(w.vtx.port_state, PortState::Connecting);
    let out = w.vtx_opened("COM1".to_string(), 5, at(), &VtxSelectionState::default(), &table());
    assert_eq!(w.vtx.port_state, PortState::Ready);
    assert_eq!(w.vtx_port_path.as_deref(), Some("COM1"));
    assert_eq!(out.len(), 3);
    assert_eq!(out[0].function, 88);
    assert_eq!(out[0].payload[4], 1);
    assert_eq!(out[1].payload, vec![0]);
    assert_eq!(out[2].payload, vec![2]);
    assert_eq!(w.osd.keepalive_at.as_deref(), Some("01:02:03"));
    assert!(!w.connect_vtx());
    w.osd.debug_overlay_enabled = false;
    w.vtx_closed();
    w.connect_vtx();
    let out = w.vtx_opened("COM1".to_string(), 5, at(), &VtxSelectionState::default(), &table());
    assert_eq!(out.len(), 1);
    assert_eq!(out[0].frame()[..3], *b"$M<");
}

#[test]
fn an_opening_can_fail() {
    let mut w = Worker::new(0);
    w.connect_vtx();
    w.vtx_open_failed();
    assert_eq!(w.vtx.port_state, PortState::Disconnected);
    assert!(w.connect_meter(PowerMeterKind::GenericManual));
    assert_eq!(w.meter.port_state, PortState::Connecting);
    assert_eq!(w.meter.kind, PowerMeterKind::GenericManual);
    w.meter_open_failed();
    assert_eq!(w.meter.port_state, PortState::Disconnected);
    assert!(w.disconnect_vtx().is_none());
    assert!(!w.disconnect_meter());
}

#[test]
fn closing_ends_the_sweep() {
    let mut w = ready_worker();
    assert!(matches!(w.start_sweep(vec![2]), Ok(Started::Anew)));
    let out = w.disconnect_vtx().unwrap();
    assert_eq!(w.vtx.port_state, PortState::Disconnecting);
    assert_eq!(out[0].payload, vec![1]);
    w.vtx_closed();
    assert!(w.sweep.is_none() && w.link.is_none());
    assert_eq!(w.vtx.port_state, PortState::Disconnected);
    assert!(w.disconnect_meter());
    w.meter_closed();
    assert_eq!(w.meter.port_state, PortState::Disconnected);
    assert!(!w.meter_open);
}

#[test]
fn a_sweep_needs_both_ports_frequencies_and_levels() {
    let mut w = Worker::new(0);
    let e = w.start_sweep(vec![2]).unwrap_err();
    assert_eq!(
        e,
        StartError::NotConnected { vtx: PortState::Disconnected, meter: PortState::Disconnected }
    );
    assert_eq!(
        e.message("StartSweep"),
        "StartSweep requested while not fully connected (vtx=Disconnected meter=Disconnected)"
    );
    let mut w = ready_worker();
    w.table_read(Vec::new());
    let e = w.start_manual(vec![2]).unwrap_err();
    assert_eq!(
        e.message("StartManual"),
        "StartManual: no frequency breakpoints in the PA table -- Refresh it first"
    );
    let mut w = ready_worker();
    let e = w.start_sweep(vec![]).unwrap_err();
    assert_eq!(e.message("StartSweep"), "StartSweep: no power levels selected");
}

#[test]
fn a_sweep_takes_the_meter_and_gives_it_back() {
    let mut w = ready_worker();
    assert_eq!(w.meter.update_millihz, 1000);
    assert!(w.start_sweep(vec![2]).is_ok());
    assert_eq!(w.meter.update_millihz, 5000);
    let e = w.sweep.as_ref().unwrap();
    assert_eq!(e.frequencies, vec![5700, 5900]);
    assert_eq!(e.target_mw_by_level.get(&2), Some(&200));
    w.abort_sweep();
    assert_eq!(w.meter.update_millihz, 1000);
    assert!(!w.sweep.as_ref().unwrap().is_active());
}

#[test]
fn a_manual_sweep_begins_with_the_stored_bias() {
    let mut w = ready_worker();
    w.start_manual(vec![2]).unwrap();
    assert_eq!(w.sweep.as_ref().unwrap().manual_dac_mv, 1000);
    w.set_manual_dac(1050);
    w.set_pa_boost(true);
    w.manual_next();
    let e = w.sweep.as_ref().unwrap();
    assert_eq!(e.manual_dac_mv, 1100);
    assert_eq!(e.freq_idx, 1);
    assert!(matches!(w.start_sweep(vec![2]), Ok(Started::Resumed)));
    assert!(w.sweep.as_ref().unwrap().is_automatic_mode());
    w.exit_manual();
    assert_eq!(w.meter.update_millihz, 1000);
    let mut w = ready_worker();
    w.start_manual(vec![2]).unwrap();
    w.skip_multiple(1);
    assert_eq!(w.sweep.as_ref().unwrap().manual_dac_mv, 1100);
}

#[test]
fn results_are_taken_over() {
    let mut w = ready_worker();
    w.start_manual(vec![2]).unwrap();
    w.set_manual_dac(1050);
    w.manual_next();
    assert_eq!(w.after_poll(true), Some(5900));
    assert_eq!(w.vtx.pa_table[1].value[0], 1050);
    assert_eq!(w.vtx.pa_table[1].detector[0], 0);
    assert_eq!(w.after_poll(true), None);
}

#[test]
fn silence_and_signs_of_life() {
    assert!(!is_ready(None, 0));
    assert!(is_ready(Some(0), READY_WINDOW - 1));
    assert!(!is_ready(Some(0), READY_WINDOW));
    assert_eq!(next_port_state(PortState::Ready, false), PortState::LostCommunication);
    assert_eq!(next_port_state(PortState::Connecting, false), PortState::Connecting);
    assert_eq!(next_port_state(PortState::LostCommunication, true), PortState::Ready);
    let mut w = ready_worker();
    w.watch_vtx(0);
    assert_eq!(w.vtx.port_state, PortState::LostCommunication);
    let mut sel = VtxSelectionState::default();
    w.frame_received(&frame(1, vec![]), 10, at(), &mut sel, &table());
    w.watch_vtx(10);
    assert_eq!(w.vtx.port_state, PortState::Ready);
    assert!(w.vtx.ready);
    w.meter_alive(10);
    w.watch_meter(10 + READY_WINDOW);
    assert_eq!(w.meter.port_state, PortState::LostCommunication);
}

#[test]
fn a_lost_port_is_opened_again() {
    let mut w = ready_worker();
    w.start_sweep(vec![2]).unwrap();
    w.vtx_link_lost();
    w.meter_link_lost();
    assert_eq!(w.vtx.port_state, PortState::LostCommunication);
    assert_eq!(w.vtx_to_reopen(999 * MS), None);
    assert_eq!(w.vtx_to_reopen(1000 * MS), Some("COM1".to_string()));
    assert_eq!(w.vtx_to_reopen(1001 * MS), None);
    assert_eq!(
        w.meter_to_reopen(1000 * MS),
        Some(("COM2".to_string(), PowerMeterKind::ImmersionRcV2))
    );
    assert_eq!(w.meter_to_reopen(1001 * MS), None);
}

#[test]
fn queries_and_keepalives_are_timed() {
    let mut w = ready_worker();
    assert!(w.status_query(249 * MS).is_none());
    let q = w.status_query(250 * MS).unwrap();
    assert_eq!(q.function, PACALIBRATION);
    assert!(q.is_v2 && q.payload.is_empty());
    assert!(w.status_query(251 * MS).is_none());
    assert!(w.displayport_keepalive(1999 * MS, at()).is_none());
    let k = w.displayport_keepalive(2000 * MS, "05:06:07".to_string()).unwrap();
    assert_eq!(k.payload, vec![0]);
    assert_eq!(w.osd.keepalive_at.as_deref(), Some("05:06:07"));
    assert!(w.meter_read_due(0));
    assert!(!w.meter_read_due(10 * MS));
    assert!(w.meter_read_due(1000 * MS));
    assert!(w.meter_check_due(0));
    assert!(!w.meter_check_due(99 * MS));
    assert!(w.meter_check_due(100 * MS));
    w.meter_read();
    assert_eq!(w.meter.reading_seq, 1);
    let mut w = ready_worker();
    w.meter.update_millihz = 500;
    assert!(!w.meter_read_due(999 * MS));
    assert!(w.meter_read_due(1000 * MS));
    assert!(!w.meter_read_due(2999 * MS));
    assert!(w.meter_read_due(3000 * MS));
}

#[test]
fn a_config_query_is_answered() {
    let mut w = ready_worker();
    let mut sel = VtxSelectionState::default();
    let query = frame(88, vec![]);
    assert!(matches!(w.frame_received(&query, 1, at(), &mut sel, &table()), FrameAction::Nothing));
    w.table_sync.ready = true;
    assert!(matches!(
        w.frame_received(&query, 1, at(), &mut sel, &VtxTableConfig::default()),
        FrameAction::Nothing
    ));
    let FrameAction::Answer(answer) = w.frame_received(&query, 1, at(), &mut sel, &table()) else {
        panic!()
    };
    assert!(!w.table_sync.synchronized);
    w.answered();
    assert!(w.table_sync.synchronized);
    let before = sel;
    let echoed = frame(88, answer.payload);
    assert!(matches!(
        w.frame_received(&echoed, 2, at(), &mut sel, &table()),
        FrameAction::ConfigTaken(_)
    ));
    assert_eq!(sel.selected_band, before.selected_band);
    assert_eq!(sel.selected_channel, before.selected_channel);
    assert_eq!(sel.selected_power, before.selected_power);
    assert_eq!(sel.pitmode, before.pitmode);
    assert_eq!(sel.selected_freq_mhz, 5865);
    assert!(matches!(
        w.frame_received(&frame(88, vec![1]), 2, at(), &mut sel, &table()),
        FrameAction::ConfigUnreadable(_)
    ));
    assert_eq!(w.push_config(&sel, &table()).unwrap().payload.len(), 15);
}

#[test]
fn a_reading_becomes_the_status_and_an_overlay() {
    let mut w = ready_worker();
    let mut sel = VtxSelectionState::default();
    let function = w.status_query(300 * MS).unwrap().function;
    let payload = vec![2, 0xE8, 3, 7, 0];
    let FrameAction::Reading(r) =
        w.frame_received(&frame(function, payload.clone()), 5, at(), &mut sel, &table())
    else {
        panic!()
    };
    assert_eq!(r.vref_mv, 1000);
    let s = w.vtx.status.unwrap();
    assert_eq!((s.level, s.power_mw, s.vbias_mv, s.detector_mv), (2, Some(200), 1000, 7));
    assert_eq!(w.displayport_queue.len(), 11);
    w.frame_received(&frame(function, payload), 5, at(), &mut sel, &table());
    assert_eq!(w.displayport_queue.len(), 11);
    assert_eq!(w.next_displayport_frame(400 * MS).unwrap().payload, vec![2]);
    assert_eq!(w.displayport_queue.len(), 10);
    w.osd.debug_overlay_enabled = false;
    assert!(w.next_displayport_frame(400 * MS).is_none());
    assert!(w.displayport_queue.is_empty());
}

#[test]
fn the_table_is_sent_and_erased() {
    let w = ready_worker();
    let out = w.table_commands();
    assert_eq!(out.len(), 1);
    assert_eq!(out[0].payload, encode_pa_calibration(&pa_table()[1]));
    assert_eq!(w.erase_command().unwrap().payload, vec![0xFF]);
    let idle = Worker::new(0);
    assert!(idle.erase_command().is_none());
    assert!(idle.table_commands().is_empty());
    assert!(idle.push_config(&VtxSelectionState::default(), &table()).is_none());
}

#[test]
fn a_table_holds_all_entries_that_came() {
    assert_eq!(TableReading::request().function, PACALTABLE);
    let mut reading = TableReading::begin(0);
    assert_eq!(reading.remaining(0), Some(QUIET_PERIOD));
    for (i, e) in pa_table().iter().enumerate() {
        let now = i as u64 * 100 * MS;
        reading.frame_received(&frame(88, vec![]), now).unwrap();
        reading.frame_received(&frame(SET_PACALTABLE, encode_pa_calibration(e)), now).unwrap();
    }
    assert_eq!(reading.remaining(100 * MS), Some(QUIET_PERIOD));
    assert_eq!(reading.remaining(399 * MS), Some(MS));
    assert_eq!(reading.remaining(400 * MS), None);
    let read: Vec<(u8, u16)> = reading.entries.iter().map(|e| (e.idx, e.m_w)).collect();
    assert_eq!(read, vec![(0, 0), (2, 200)]);
    let e = reading.frame_received(&frame(SET_PACALTABLE, vec![0; 30]), 0).unwrap_err();
    assert_eq!(e.message(), "PACALTABLE payload too short: 30 bytes");
    assert_eq!(reading.entries.len(), 2);
}

#[test]
fn an_answer_is_waited_for() {
    assert_eq!(ConfigReading::request().function, 88);
    let reading = ConfigReading::begin(5);
    assert_eq!(reading.remaining(5), Some(QUIET_PERIOD));
    assert_eq!(reading.remaining(QUIET_PERIOD + 5), None);
    assert_eq!(no_config_text(), "no VTX_CONFIG response within timeout");
    assert!(config_frame(&frame(88, vec![])).is_none());
    assert!(config_frame(&frame(88, vec![1])).unwrap().is_err());
    assert!(config_frame(&frame(88, vec![0; 15])).unwrap().is_ok());
    assert!(config_frame(&frame(89, vec![0; 15])).is_none());
}

#[test]
fn histories_and_counts_are_looked_at_now_and_then() {
    let mut w = Worker::new(0);
    assert_eq!(w.history_trim_due(999 * MS), None);
    assert_eq!(w.history_trim_due(1000 * MS), Some(false));
    assert_eq!(w.counts_to_log(5000 * MS), None);
    let mut w = ready_worker();
    assert_eq!(w.history_trim_due(1000 * MS), Some(true));
    assert_eq!(w.history_trim_due(1001 * MS), None);
    assert_eq!(w.counts_to_log(4999 * MS), None);
    assert_eq!(w.counts_to_log(5000 * MS), Some((0, 0)));
    assert_eq!(w.counts_to_log(5001 * MS), None);
}

#[test]
fn a_sweep_is_polled_while_the_link_is_open() {
    let zero = Power { bits: 0 };
    let samples = Samples {
        average: zero,
        rolling: None,
        newest_at: None,
        near_target: zero,
        band_low: zero,
        band_high: zero,
    };
    let mut w = ready_worker();
    assert!(w.poll_sweep(0, None, samples).is_none());
    w.start_sweep(vec![2]).unwrap();
    let Some(PollOutcome::Send { message, after }) = w.poll_sweep(0, None, samples) else { panic!() };
    w.sweep_sent(&message, after, 0);
    assert!(w.sweep.as_ref().unwrap().pending_sends.is_empty());
    w.vtx_link_lost();
    assert!(w.poll_sweep(0, None, samples).is_none());
}

#[test]
fn a_time_is_shown() {
    assert_eq!(format_time_hms(3661), "01:01:01");
    assert_eq!(format_time_hms(86399), "23:59:59");
}

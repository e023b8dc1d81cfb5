use vtx_tool::calibration_engine::cells::{CellStatus, CellTable};
use vtx_tool::calibration_engine::types::{
    ConnectionLossReason, CurrentStep, LevelStatus, SweepResult,
};
use vtx_tool::calibration_page::{
    cell_color, cell_text, column_label, connection_lost_text, controls, number_or_none,
    prompt_mhz, prompt_text, row_cells, status_text, CalibrationPageState, PageSituation, SkipTimer,
};
use vtx_tool::conn_status::{OverallState, PortState, Rgb};
use vtx_tool::msp::PaCalibration;
use vtx_tool::nav::{
    all_ports_action, all_ports_button_label, canvas_text, channel_choices, find_band,
    frequency_label, keepalive_text, known, known_choice, port_action, port_button_label,
    power_choices, rtc6705_text, selected_band_label, selected_power_label, status_texts,
    temperature_text, Page, PortAction, MAX_FREQ_KHZ, MIN_FREQ_KHZ,
};
use vtx_tool::overlay::build_status_displayport_frames;
use vtx_tool::pa_table::{
    apply_result, bias_of, find_entry, frequencies_to_sweep, level_rows, power_of, sign_inverted, table_frequencies, targets_of,
};
use vtx_tool::power_meter::PowerMeterKind;
use vtx_tool::state::VtxStatus;
use vtx_tool::vtx_table_page::{resize_bands, resize_power_levels, set_channels, VtxTablePageState};
use vtx_tool::vtxtable::{VtxSelectionState, VtxTableConfig};

const MS: u64 = 1_000_000;

fn entry(idx: u8, m_w: u16, value: [u16; 7]) -> PaCalibration {
    PaCalibration {
        idx,
        m_w,
        value,
        detector: [1, 2, 3, 4, 5, 6, 7],
        ext_pa_enable: idx % 2 == 0,
        rtc6705_level: 3,
        dac_sign_inverted: idx == 0,
    }
}

fn table() -> Vec<PaCalibration> {
    vec![
        entry(1, 25, [10, 20, 30, 40, 50, 60, 70]),
        entry(0, 0, [5600, 0, 5700, 5800, 0, 5900, 6000]),
        entry(2, 200, [11, 21, 31, 41, 51, 61, 71]),
        entry(1, 99, [0; 7]),
    ]
}

#[test]
fn the_calibration_table_is_searched() {
    let t = table();
    assert_eq!(find_entry(&t, 2), 2);
    assert_eq!(find_entry(&t, 1), 0);
    assert_eq!(find_entry(&t, 9), 4);
    assert_eq!(table_frequencies(&t), [5600, 0, 5700, 5800, 0, 5900, 6000]);
    assert_eq!(frequencies_to_sweep(&t), vec![5600, 5700, 5800, 5900, 6000]);
    assert!(sign_inverted(&t));
    let targets = targets_of(&t, &vec![1, 2, 7]);
    assert_eq!(targets.get(&1), Some(&25));
    assert_eq!(targets.get(&2), Some(&200));
    assert_eq!(targets.len(), 2);
    assert_eq!(power_of(&t, 2), Some(200));
    assert_eq!(power_of(&t, 3), None);
    assert_eq!(bias_of(&t, 2, 6), Some(71));
    assert_eq!(bias_of(&t, 2, 7), None);
    assert_eq!(bias_of(&t, 3, 0), None);
    let empty: Vec<PaCalibration> = Vec::new();
    assert_eq!(table_frequencies(&empty), [0; 7]);
    assert!(frequencies_to_sweep(&empty).is_empty());
    assert!(!sign_inverted(&empty));
}

fn result(level: u8, freq_idx: usize, vbias_mv: Option<u16>, detector_mv: Option<u16>, success: bool) -> SweepResult {
    SweepResult { level, freq_idx, vbias_mv, detector_mv, success, pa_failure: false, not_settled: false }
}

#[test]
fn results_go_into_the_calibration_table() {
    let mut t = table();
    apply_result(&mut t, &result(1, 2, Some(333), None, true));
    assert_eq!(t[0].value, [10, 20, 333, 40, 50, 60, 70]);
    assert_eq!(t[3].value, [0; 7]);
    apply_result(&mut t, &result(2, 6, None, Some(999), true));
    assert_eq!(t[2].detector, [1, 2, 3, 4, 5, 6, 999]);
    apply_result(&mut t, &result(1, 0, Some(1), Some(1), false));
    apply_result(&mut t, &result(1, 7, Some(1), Some(1), true));
    apply_result(&mut t, &result(9, 0, Some(1), Some(1), true));
    assert_eq!(t[0].value[0], 10);
    assert_eq!(t.len(), 4);
}

#[test]
fn the_table_shows_cells() {
    let e = &table()[2];
    let step = Some(CurrentStep {
        level: 2,
        freq_idx: 1,
        vbias_mv: Some(1234),
        detector_mv: Some(55),
        cal_is_current: true,
        det_is_current: false,
    });
    let text = |col: usize| cell_text(e, col, &step, Some(450), Some(&LevelStatus::Done));
    assert_eq!(text(0), "");
    assert_eq!(text(1), "2");
    assert_eq!(text(2), "200");
    assert_eq!(text(3), "11");
    assert_eq!(text(4), "1234");
    assert_eq!(text(10), "1");
    assert_eq!(text(11), "55");
    assert_eq!(text(17), "Yes");
    assert_eq!(text(18), "3");
    assert_eq!(text(19), "450");
    assert_eq!(text(20), "Done");
    assert_eq!(text(21), "");
    assert_eq!(cell_text(e, 4, &None, None, None), "21");
    assert_eq!(cell_text(e, 19, &None, None, None), "-");
    assert_eq!(cell_text(e, 20, &None, None, None), "Not calibrated");
    let f = [5600, 0, 5700, 5800, 0, 5900, 6000];
    let labels: Vec<String> = (0..22).map(|c| column_label(&f, c)).collect();
    assert_eq!(labels[..4], ["", "idx", "mW", "5600"]);
    assert_eq!(labels[9], "6000");
    assert_eq!(labels[10], "5600");
    assert_eq!(labels[16..], ["6000", "Boost", "RTC6705", "Limit (mV)", "Status", ""]);
}

#[test]
fn the_table_shows_colours() {
    let mut cells = CellTable::new();
    cells.insert(2, 1, CellStatus::LimitHit);
    cells.insert(2, 1, CellStatus::Calibrated);
    cells.insert(2, 9, CellStatus::Manual);
    cells.insert(3, 0, CellStatus::Skipped);
    let row = row_cells(&cells, 2);
    assert_eq!(row[0], CellStatus::Default);
    assert_eq!(row[1], cells.get(2, 1).unwrap());
    assert_eq!(row_cells(&cells, 3)[0], CellStatus::Skipped);
    assert_eq!(cell_color(CellStatus::Default), None);
    assert_eq!(cell_color(CellStatus::Manual), Some(Rgb { r: 80, g: 55, b: 100 }));
    assert_eq!(cell_color(CellStatus::PaFailure), Some(Rgb { r: 165, g: 80, b: 15 }));
    cells.clear();
    assert_eq!(cells.get(3, 0), None);
}

#[test]
fn statuses_have_texts() {
    assert_eq!(status_text(None), "Not calibrated");
    assert_eq!(status_text(Some(&LevelStatus::Pending)), "Pending");
    assert_eq!(status_text(Some(&LevelStatus::InProgress("x @ 1".to_string()))), "x @ 1");
    assert_eq!(status_text(Some(&LevelStatus::PaFailure)), "PA Failure");
    assert_eq!(status_text(Some(&LevelStatus::NotSettled)), "Not Settled");
    assert_eq!(status_text(Some(&LevelStatus::Aborted)), "Aborted");
    assert_eq!(number_or_none(Some(-3)), "-3");
    assert_eq!(number_or_none(None), "None");
}

#[test]
fn buttons_are_enabled_where_they_make_sense() {
    let idle = PageSituation {
        automatic_mode: false,
        manual_mode: false,
        sweep_active: false,
        overall_ready: true,
        any_checked: true,
    };
    let c = controls(idle);
    assert!(c.automatic && c.manual && c.send_table && c.erase);
    assert!(!c.stop && !c.skip && !c.save && !c.not_ready_hint);
    let c = controls(PageSituation { overall_ready: false, ..idle });
    assert!(!c.automatic && !c.manual && c.not_ready_hint);
    let c = controls(PageSituation { manual_mode: true, sweep_active: true, any_checked: false, ..idle });
    assert!(c.automatic && !c.manual && c.stop && c.skip && c.save && !c.erase);
    let c = controls(PageSituation { automatic_mode: true, sweep_active: true, ..idle });
    assert!(!c.automatic && !c.manual && c.stop && !c.save && !c.send_table);
}

#[test]
fn checked_levels_are_sorted() {
    let mut page = CalibrationPageState::default();
    assert!(!page.any_checked());
    assert!(page.is_level_checked(3, true));
    assert!(!page.is_level_checked(4, false));
    assert!(page.is_level_checked(3, false));
    page.set_checked(1, true);
    page.set_checked(2, true);
    page.set_checked(2, false);
    assert_eq!(page.checked_levels(), vec![1, 3]);
    assert!(page.any_checked());
    assert!(page.automatic_clicked(true));
    assert!(!page.show_confirm_dialog);
    assert!(!page.automatic_clicked(false));
    assert!(page.show_confirm_dialog);
}

#[test]
fn clicks_on_skip_count_together() {
    let mut page = CalibrationPageState::default();
    assert_eq!(page.skip_timer(0), SkipTimer::Off);
    page.skip_clicked(0);
    page.skip_clicked(300 * MS);
    assert_eq!(page.skip_timer(400 * MS), SkipTimer::Waiting(400 * MS));
    assert_eq!(page.skip_timer(800 * MS), SkipTimer::Due(2));
    assert_eq!(page.skip_timer(800 * MS), SkipTimer::Off);
}

#[test]
fn prompts_and_errors_have_texts() {
    assert_eq!(prompt_mhz(&PowerMeterKind::ImmersionRcV1.capability(), 5658), 5800);
    assert_eq!(prompt_mhz(&PowerMeterKind::GenericManual.capability(), 5658), 5658);
    assert_eq!(prompt_text(5800), "Set your power meter to 5800 MHz, then continue.");
    assert_eq!(
        connection_lost_text(2, 5700, 1234, ConnectionLossReason::Both),
        "Lost communication with the VTX and the power meter while calibrating level 2 at 5700MHz \
         (vbias_mv=1234). If the VTX is on a current-limited supply, it may have powered off."
    );
    assert!(connection_lost_text(2, 5700, 0, ConnectionLossReason::Vtx).contains("with the VTX while"));
    assert!(connection_lost_text(2, 5700, 0, ConnectionLossReason::Meter)
        .contains("with the power meter while"));
}

#[test]
fn removed_bands_come_back() {
    let mut cfg = VtxTableConfig::default();
    let mut removed = Vec::new();
    resize_bands(&mut cfg, 3, &mut removed);
    let names: Vec<&str> = cfg.bands.iter().map(|b| b.name.as_str()).collect();
    assert_eq!(names, vec!["BAND1", "BAND2", "BAND3"]);
    assert_eq!(cfg.bands[2].letter, 'C');
    assert_eq!(cfg.bands[2].freqs_mhz, [5800; 8]);
    assert_eq!(cfg.bands[2].channel_count, 8);
    cfg.bands[1].name = "MINE".to_string();
    resize_bands(&mut cfg, 1, &mut removed);
    assert_eq!(removed.len(), 2);
    resize_bands(&mut cfg, 3, &mut removed);
    let back: Vec<(u8, &str)> = cfg.bands.iter().map(|b| (b.index, b.name.as_str())).collect();
    assert_eq!(back, vec![(1, "BAND1"), (2, "MINE"), (3, "BAND3")]);
    assert!(removed.is_empty());
    resize_bands(&mut cfg, 28, &mut removed);
    assert_eq!(cfg.bands[27].letter, 'Z');
    set_channels(&mut cfg, 5);
    assert_eq!(cfg.channels, 5);
    assert!(cfg.bands.iter().all(|b| b.channel_count == 5));
}

#[test]
fn removed_power_levels_come_back() {
    let mut cfg = VtxTableConfig::default();
    let mut removed = Vec::new();
    resize_power_levels(&mut cfg, 2, &mut removed);
    assert_eq!(cfg.power_levels[1].m_w, 25);
    assert_eq!(cfg.power_levels[1].label, "25");
    cfg.power_levels[1].m_w = 400;
    resize_power_levels(&mut cfg, 0, &mut removed);
    resize_power_levels(&mut cfg, 3, &mut removed);
    let back: Vec<(u8, u16)> = cfg.power_levels.iter().map(|l| (l.index, l.m_w)).collect();
    assert_eq!(back, vec![(1, 25), (2, 400), (3, 25)]);
}

#[test]
fn a_pasted_text_is_imported() {
    let mut cfg = VtxTableConfig::default();
    let mut page = VtxTablePageState::default();
    resize_bands(&mut cfg, 1, &mut page.removed_bands);
    resize_bands(&mut cfg, 0, &mut page.removed_bands);
    page.cli_text = "nothing".to_string();
    assert!(!page.import(&mut cfg));
    assert_eq!(
        page.last_error.as_deref(),
        Some("import failed: no 'vtxtable band'/'vtxtable powervalues' lines found in the pasted text")
    );
    assert_eq!(page.removed_bands.len(), 1);
    page.cli_text = "vtxtable band 1 A A CUSTOM 5800".to_string();
    assert!(page.import(&mut cfg));
    assert_eq!(page.last_error, None);
    assert!(page.removed_bands.is_empty());
    assert_eq!(cfg.bands.len(), 1);
    page.failed("save", "disk full");
    assert_eq!(page.last_error.as_deref(), Some("save failed: disk full"));
    page.table_replaced();
    assert_eq!(page.last_error, None);
}

#[test]
fn ports_are_connected_and_disconnected() {
    assert_eq!(port_action(PortState::Ready), PortAction::Disconnect);
    assert_eq!(port_action(PortState::Disconnected), PortAction::Connect);
    assert_eq!(port_action(PortState::LostCommunication), PortAction::Nothing);
    assert_eq!(port_button_label(PortState::Ready), "Disconnect");
    assert_eq!(port_button_label(PortState::Connecting), "Connect");
    assert_eq!(all_ports_button_label(OverallState::Ready), "Disconnect-all");
    assert_eq!(all_ports_button_label(OverallState::NotReady), "Connect-all");
    assert_eq!(
        all_ports_action(PortState::Ready, PortState::Ready),
        (PortAction::Disconnect, PortAction::Disconnect)
    );
    assert_eq!(
        all_ports_action(PortState::Ready, PortState::Disconnected),
        (PortAction::Nothing, PortAction::Connect)
    );
    assert_eq!(Page::VtxTable.title(), "VTX Table");
}

#[test]
fn a_frequency_is_chosen() {
    let mut s = VtxSelectionState::default();
    assert!(!s.is_manual());
    s.set_manual(true);
    assert!(s.is_manual());
    s.set_frequency_khz(MIN_FREQ_KHZ);
    assert_eq!(s.selected_freq_mhz, 5600);
    s.set_frequency_khz(MAX_FREQ_KHZ);
    assert_eq!(s.selected_freq_mhz, 6000);
    s.set_manual(false);
    assert_eq!(s.selected_band, 1);
    s.selected_band = 3;
    s.set_manual(false);
    assert_eq!(s.selected_band, 3);
    let t = VtxTableConfig::parse_betaflight_cli(
        "vtxtable band 2 RACE R FACTORY 5658 5695\nvtxtable powervalues 25 400\nvtxtable powerlabels 25 MAX",
    )
    .unwrap();
    assert_eq!(find_band(&t, 2), 0);
    assert_eq!(find_band(&t, 3), 1);
    assert_eq!(selected_band_label(&t, 2), "RACE (R)");
    assert_eq!(selected_band_label(&t, 1), "-");
    assert_eq!(channel_choices(&t, 2), 2);
    assert_eq!(channel_choices(&t, 1), 1);
    assert_eq!(power_choices(&t), 2);
    assert_eq!(power_choices(&VtxTableConfig::default()), 1);
    assert_eq!(selected_power_label(&t, 2), Some("-> 400 mW ('MAX')".to_string()));
    assert_eq!(selected_power_label(&t, 3), None);
    assert_eq!(frequency_label(5800), "-> 5800 MHz");
}

fn status() -> VtxStatus {
    VtxStatus {
        level: 2,
        power_mw: Some(200),
        boost_on: Some(true),
        rtc6705_level: Some(3),
        frequency_mhz: Some(5800),
        vbias_mv: 1234,
        detector_mv: 567,
        pid_active: Some(false),
        session_active: None,
        mcu_temp_c_x10: None,
        ntc_raw: Some(2048),
        pa_temp_c_x10: Some(-125),
    }
}

#[test]
fn a_status_is_shown() {
    let t = status_texts(&status());
    assert_eq!(t.level, "2");
    assert_eq!(t.power, "200 mW");
    assert_eq!(t.pa, "ON");
    assert_eq!(t.rtc6705_level, "13 dBm");
    assert_eq!(t.frequency, "5800 MHz");
    assert_eq!(t.vbias, "1234 mV");
    assert_eq!(t.vdetector, "567 mV");
    assert_eq!(t.pid_loop, "Inactive");
    assert_eq!(t.session, "\u{2014}");
    assert_eq!(t.mcu_temperature, "\u{2014}");
    assert_eq!(t.pa_temperature, "-12.5 \u{b0}C");
    assert_eq!(t.ntc_raw, "2048");
    assert_eq!(temperature_text(Some(-5)), "-0.5 \u{b0}C");
    assert_eq!(temperature_text(Some(305)), "30.5 \u{b0}C");
    assert_eq!(rtc6705_text(Some(0)), "3 dBm");
    assert_eq!(rtc6705_text(Some(7)), "? (7)");
    assert_eq!(rtc6705_text(None), "\u{2014}");
    assert_eq!(known(None, " mW"), "\u{2014}");
    assert_eq!(known_choice(Some(false), "a", "b"), "b");
    assert_eq!(canvas_text(Some((53, 20))), "53x20");
    assert_eq!(canvas_text(None), "None");
    assert_eq!(keepalive_text(Some(&"01:02:03".to_string())), "Keepalive (01:02:03)");
    assert_eq!(keepalive_text(None), "None");
}

#[test]
fn the_overlay_draws_nine_rows() {
    let frames = build_status_displayport_frames(&status());
    assert_eq!(frames.len(), 10);
    let row = |i: usize| String::from_utf8(frames[i][4..].to_vec()).unwrap();
    assert_eq!(frames[0][..4], [3, 1, 1, 0]);
    assert_eq!(row(0), format!("{:<10}{:>18}", "LEVEL", "2"));
    assert_eq!(row(1), format!("{:<10}{:>18}", "POWER MW", "200MW"));
    assert_eq!(row(2), format!("{:<10}{:>18}", "PA", "ON"));
    assert_eq!(row(3), format!("{:<10}{:>18}", "RTC6705", "3"));
    assert_eq!(row(4), format!("{:<10}{:>18}", "FREQ", "5800MHZ"));
    assert_eq!(row(5), format!("{:<10}{:>18}", "VBIAS", "1234MV"));
    assert_eq!(row(6), format!("{:<10}{:>18}", "VDET", "567"));
    assert_eq!(row(7), format!("{:<10}{:>18}", "PID", "IDLE"));
    assert_eq!(row(8), format!("{:<10}{:>18}", "SESSION", "?"));
    assert_eq!(frames[8][1], 9);
    assert_eq!(frames[9], vec![4]);
    let unknown = VtxStatus { power_mw: None, boost_on: None, rtc6705_level: None, frequency_mhz: None, ..status() };
    let frames = build_status_displayport_frames(&unknown);
    assert_eq!(frames[1][31], b'-');
    assert_eq!(frames[2][31], b'?');
}

#[test]
fn every_entry_but_the_frequencies_is_a_row() {
    let table: Vec<PaCalibration> =
        [3, 0, 1, 0, 2].into_iter().map(|idx| entry(idx, 25, [0; 7])).collect();
    assert_eq!(level_rows(&table), [0, 2, 4]);
    assert!(level_rows(&vec![entry(0, 0, [5700; 7])]).is_empty());
}

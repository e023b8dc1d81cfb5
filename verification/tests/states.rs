use vtx_tool::conn_status::{OverallState, PortState, Rgb};
use vtx_tool::history::History;
use vtx_tool::logging::{format_timestamp, Level, LevelFilter, LogEntry, SharedLogs, MAX_MESSAGES};
use vtx_tool::power_meter::PowerMeterKind;
use vtx_tool::settings::{settings_path, table_is_ready, Setup, SetupArgs};
use vtx_tool::state::{
    rate_choices, rate_is_offered, rate_label, MeterState, OsdState, VtxState, VtxTableSyncState,
};
use vtx_tool::vtxtable::VtxTableConfig;

const S: u64 = 1_000_000_000;

#[test]
fn a_history_forgets_what_is_old() {
    let mut h: History<u32> = History::new();
    assert_eq!(h.newest_at(), None);
    for i in 0..70u64 {
        h.push(i * S, i as u32);
    }
    h.trim_stale_history(69 * S);
    assert_eq!(h.samples.len(), 61);
    assert_eq!(h.samples[0].at, 9 * S);
    assert_eq!(h.newest(3), vec![69, 68, 67]);
    assert_eq!(h.newest(1000).len(), 61);
    assert_eq!(h.newest_at(), Some(69 * S));
    h.clear();
    assert_eq!(h.newest(3), Vec::<u32>::new());
    assert_eq!(h.rolling_since(0), None);
}

#[test]
fn a_rolling_average_covers_three_seconds() {
    let mut h: History<u32> = History::new();
    for i in 0..10u64 {
        h.push(i * S, i as u32);
    }
    assert_eq!(h.rolling_since(0), Some(vec![9, 8, 7, 6]));
    assert_eq!(h.rolling_since(6 * S), Some(vec![9, 8, 7, 6]));
    assert_eq!(h.rolling_since(6 * S + 10_000_000), Some(vec![9, 8, 7]));
    assert_eq!(h.rolling_since(6 * S + 10_000_001), None);
    assert_eq!(h.rolling_since(8 * S), None);
}

fn entry(level: Level, text: &str) -> LogEntry {
    LogEntry { level, text: text.to_string(), at_secs: 0, at_millis: 0 }
}

#[test]
fn a_log_keeps_the_newest() {
    let mut logs = SharedLogs::new();
    for i in 0..MAX_MESSAGES + 5 {
        logs.record(LevelFilter::UpTo(Level::Debug), "vtx", entry(Level::Debug, &i.to_string()));
    }
    assert_eq!(logs.vtx.messages.len(), MAX_MESSAGES);
    assert_eq!(logs.vtx.messages[0].text, "5");
    assert_eq!(logs.vtx.messages[MAX_MESSAGES - 1].text, "104");
    assert!(logs.meter.messages.is_empty() && logs.general.messages.is_empty());
}

#[test]
fn logs_are_told_apart_and_filtered() {
    let mut logs = SharedLogs::new();
    logs.record(LevelFilter::UpTo(Level::Info), "meter", entry(Level::Warn, "a"));
    logs.record(LevelFilter::UpTo(Level::Info), "meter", entry(Level::Debug, "b"));
    logs.record(LevelFilter::UpTo(Level::Info), "other", entry(Level::Info, "c"));
    logs.record(LevelFilter::Off, "vtx", entry(Level::Error, "d"));
    assert_eq!(logs.meter.messages.len(), 1);
    assert_eq!(logs.general.messages[0].text, "c");
    assert!(logs.vtx.messages.is_empty());
    assert!(Level::Error.is_shown(LevelFilter::UpTo(Level::Error)));
    assert!(!Level::Warn.is_shown(LevelFilter::UpTo(Level::Error)));
    assert_eq!(Level::Error.color(), Some(Rgb { r: 220, g: 80, b: 80 }));
    assert_eq!(Level::Warn.color(), Some(Rgb { r: 220, g: 180, b: 60 }));
    assert_eq!(Level::Info.color(), None);
    assert_eq!(Level::Trace.color(), Level::Debug.color());
    assert_eq!(format_timestamp(90061, 7), "01:01:01.007");
}

#[test]
fn a_sweep_gives_the_rate_back() {
    let mut m = MeterState::default();
    assert_eq!(m.read_interval(), S);
    m.update_millihz = 500;
    m.begin_sweep(5);
    assert_eq!(m.read_interval(), S / 5);
    m.end_sweep();
    assert_eq!(m.update_millihz, 500);
    assert_eq!(m.pre_sweep_update_millihz, None);
    m.end_sweep();
    assert_eq!(m.update_millihz, 500);
    m.update_millihz = 0;
    assert_eq!(m.read_interval(), 100 * S);
    m.update_millihz = 5000;
    m.choose_kind(PowerMeterKind::GenericManual);
    assert_eq!(m.update_millihz, 1000);
    assert_eq!(m.kind, PowerMeterKind::GenericManual);
}

#[test]
fn rates_have_labels() {
    assert_eq!(rate_choices().len(), 5);
    for (rate, label) in rate_choices() {
        assert_eq!(rate_label(rate), label);
    }
    assert_eq!(rate_label(2000), "2 Hz");
    assert_eq!(rate_label(10), "0.01 Hz");
    assert_eq!(rate_label(1250), "1.25 Hz");
    assert_eq!(rate_label(200), "0.2 Hz");
    assert!(rate_is_offered(PowerMeterKind::ImmersionRcV1, 5000));
    assert!(!rate_is_offered(PowerMeterKind::ImmersionRcV1, 10000));
}

#[test]
fn states_begin_disconnected() {
    let v = VtxState::default();
    assert_eq!(v.port_state, PortState::Disconnected);
    assert!(!v.ready && v.status.is_none() && v.pa_table.is_empty());
    assert!(OsdState::default().debug_overlay_enabled);
    let mut sync = VtxTableSyncState { ready: true, synchronized: true };
    sync.table_modified();
    assert!(!sync.ready && !sync.synchronized);
}

#[test]
fn ports_have_labels_and_colours() {
    assert_eq!(PortState::LostCommunication.label(), "Lost Communication");
    assert_eq!(PortState::Disconnecting.label(), "Disconnecting");
    assert!(PortState::Ready.is_ready() && !PortState::Connecting.is_ready());
    assert!(PortState::Disconnected.is_idle() && !PortState::Disconnecting.is_idle());
    assert_eq!(OverallState::from_ports(PortState::Ready, PortState::Ready), OverallState::Ready);
    assert_eq!(
        OverallState::from_ports(PortState::Ready, PortState::Connecting),
        OverallState::NotReady
    );
    assert_eq!(OverallState::NotReady.label(), "Not Ready");
    assert_eq!(OverallState::Ready.color(), Rgb { r: 70, g: 170, b: 100 });
}

#[test]
fn the_command_line_goes_before_the_settings() {
    assert_eq!(settings_path(), "rf-cal-settings.json");
    let mut s = Setup::default();
    s.vtx_port = "A".to_string();
    s.meter_port = "B".to_string();
    let args = SetupArgs {
        vtx_port: None,
        meter_port: Some("C".to_string()),
        meter_kind: Some(PowerMeterKind::ImmersionRcV2),
        vtx_table: Some("t.json".to_string()),
    };
    assert!(!args.auto_connect());
    s.apply(&args);
    assert_eq!((s.vtx_port.as_str(), s.meter_port.as_str()), ("A", "C"));
    assert_eq!(s.meter_kind, PowerMeterKind::ImmersionRcV2);
    assert_eq!(s.vtx_table_path, "t.json");
    assert!(SetupArgs { vtx_port: Some("x".to_string()), ..args }.auto_connect());
    let table = VtxTableConfig::parse_betaflight_cli("vtxtable powervalues 1").unwrap();
    assert!(!table_is_ready(&table));
    let table =
        VtxTableConfig::parse_betaflight_cli("vtxtable powervalues 1\nvtxtable band 1 A A C").unwrap();
    assert!(table_is_ready(&table));
}

use vtx_tool::calibration_engine::safe_state_payload;
use vtx_tool::msp::decode_vtx_config;
use vtx_tool::vtxtable::{VtxSelectionState, VtxTableConfig};

const CLI: &str = "# vtxtable
vtxtable bands 2
vtxtable channels 8
vtxtable band 2 RACEBAND R FACTORY 5658 5695 5732 5769 5806 5843 5880 5917
  vtxtable band 1 BOSCAM_A A CUSTOM 5865 5845 5825\r
set something = 1
vtxtable powerlevels 3
vtxtable powervalues 25 x 100 400
vtxtable powerlabels 25 100
";

#[test]
fn a_cli_text_becomes_a_table() {
    let t = VtxTableConfig::parse_betaflight_cli(CLI).unwrap();
    assert_eq!(t.channels, 8);
    let names: Vec<&str> = t.bands.iter().map(|b| b.name.as_str()).collect();
    assert_eq!(names, vec!["BOSCAM_A", "RACEBAND"]);
    assert_eq!(t.bands[0].freqs_mhz, [5865, 5845, 5825, 0, 0, 0, 0, 0]);
    assert_eq!(t.bands[0].channel_count, 3);
    assert!(!t.bands[0].is_factory && t.bands[1].is_factory);
    assert_eq!(t.bands[1].letter, 'R');
    let levels: Vec<(u8, u16, &str)> =
        t.power_levels.iter().map(|l| (l.index, l.m_w, l.label.as_str())).collect();
    assert_eq!(levels, vec![(1, 25, "25"), (2, 100, "100"), (3, 400, "400")]);
}

#[test]
fn bands_with_one_index_stay_in_order() {
    let text = "vtxtable band 3 C C X\nvtxtable band 1 A1 A X\nvtxtable band 3 C2 C X\nvtxtable band q A0 A X\nvtxtable band 1 A2 A factory 1 2 3 4 5 6 7 8 9";
    let t = VtxTableConfig::parse_betaflight_cli(text).unwrap();
    let names: Vec<&str> = t.bands.iter().map(|b| b.name.as_str()).collect();
    assert_eq!(names, vec!["A0", "A1", "A2", "C", "C2"]);
    assert!(t.bands[2].is_factory);
    assert_eq!(t.bands[2].channel_count, 8);
    assert_eq!(t.bands[2].freqs_mhz, [1, 2, 3, 4, 5, 6, 7, 8]);
    assert_eq!(t.bands[3].channel_count, 0);
}

#[test]
fn other_lines_change_nothing() {
    let with = format!("noise\n{CLI}feature VTX\nvtxtable\nvtxtable band 9 X\n");
    let a = VtxTableConfig::parse_betaflight_cli(CLI).unwrap();
    let b = VtxTableConfig::parse_betaflight_cli(&with).unwrap();
    assert_eq!(a.bands.len(), b.bands.len());
    assert_eq!(a.power_levels.len(), b.power_levels.len());
    assert_eq!(a.channels, b.channels);
}

#[test]
fn a_text_without_a_table_is_refused() {
    for text in ["", "hello", "vtxtable channels 5", "vtxtable powerlabels a b"] {
        let e = VtxTableConfig::parse_betaflight_cli(text).unwrap_err();
        assert_eq!(
            e.message(),
            "no 'vtxtable band'/'vtxtable powervalues' lines found in the pasted text"
        );
    }
    let only_power = VtxTableConfig::parse_betaflight_cli("vtxtable powervalues 1").unwrap();
    assert_eq!(only_power.channels, 8);
}

#[test]
fn the_last_of_several_lines_counts() {
    let t = VtxTableConfig::parse_betaflight_cli(
        "vtxtable channels 4\nvtxtable channels 300\nvtxtable powervalues 1 2\nvtxtable powervalues 3",
    )
    .unwrap();
    assert_eq!(t.channels, 4);
    assert_eq!(t.power_levels.len(), 1);
    assert_eq!(t.power_levels[0].m_w, 3);
}

#[test]
fn a_selection_has_a_frequency() {
    let t = VtxTableConfig::parse_betaflight_cli(CLI).unwrap();
    let mut s = VtxSelectionState::default();
    assert_eq!(s.frequency_mhz(&t), 5865);
    s.selected_channel = 0;
    assert_eq!(s.frequency_mhz(&t), 5865);
    s.selected_channel = 9;
    assert_eq!(s.frequency_mhz(&t), 5800);
    s.selected_band = 2;
    s.selected_channel = 8;
    assert_eq!(s.frequency_mhz(&t), 5917);
    s.selected_band = 7;
    assert_eq!(s.frequency_mhz(&t), 5800);
    s.selected_band = 0;
    s.selected_freq_mhz = 5740;
    assert_eq!(s.frequency_mhz(&t), 5740);
}

#[test]
fn a_selection_is_read_back_from_the_wire() {
    let t = VtxTableConfig::parse_betaflight_cli(CLI).unwrap();
    let s = VtxSelectionState {
        selected_band: 2,
        selected_channel: 3,
        selected_power: 2,
        selected_freq_mhz: 1,
        pitmode: false,
    };
    let bytes = s.encode_vtx_config_response(&t);
    assert_eq!(bytes, vec![5, 2, 3, 2, 0, 0x64, 0x16, 1, 0, 0, 0, 1, 2, 8, 3]);
    let c = decode_vtx_config(&bytes).unwrap();
    assert_eq!((c.band, c.channel, c.power, c.frequency_mhz, c.pitmode), (2, 3, 2, 5732, false));
    let safe = decode_vtx_config(&safe_state_payload(&t, &s)).unwrap();
    assert!(safe.pitmode);
    assert_eq!((safe.band, safe.frequency_mhz), (2, 5732));
}

#[test]
fn a_table_is_cloned_whole() {
    let t = VtxTableConfig::parse_betaflight_cli(CLI).unwrap();
    let c = t.clone();
    assert_eq!(c.bands.len(), 2);
    assert_eq!(c.bands[1].name, "RACEBAND");
    assert_eq!(c.power_levels[2].label, "400");
    assert_eq!(VtxTableConfig::default().channels, 8);
}

use vtx_tool::power_meter::{
    answer_line, freq_to_v2_index, nearest_band, parse_cli, parse_frequency_raw,
    FrequencyCapability, MeterQuery, PowerMeterKind,
};

#[test]
fn kinds_have_names_and_rates() {
    let names: Vec<&str> = PowerMeterKind::ALL.iter().map(|k| k.name()).collect();
    assert_eq!(
        names,
        vec!["ImmersionRC V1", "ImmersionRC V2", "Generic Manual", "Generic Fully Programmable"]
    );
    let rates: Vec<u32> = PowerMeterKind::ALL.iter().map(|k| k.max_update_hz()).collect();
    assert_eq!(rates, vec![5, 5, 1, 1]);
    assert!(PowerMeterKind::ALL.iter().all(|k| k.default_baud() == 115200));
    assert_eq!(PowerMeterKind::default(), PowerMeterKind::ImmersionRcV1);
}

#[test]
fn a_kind_is_found_by_its_name_in_any_case() {
    for kind in PowerMeterKind::ALL {
        assert_eq!(parse_cli(kind.cli_name()), Ok(kind));
        assert_eq!(parse_cli(&kind.cli_name().to_uppercase()), Ok(kind));
    }
    assert_eq!(
        parse_cli("immersionrc"),
        Err("unknown power meter kind 'immersionrc' (expected one of: immersionrc-v1, \
             immersionrc-v2, generic-manual, generic-fully-programmable)"
            .to_string())
    );
}

#[test]
fn capabilities() {
    match PowerMeterKind::ImmersionRcV1.capability() {
        FrequencyCapability::ManualBand { bands_mhz } => {
            assert_eq!(bands_mhz, vec![5800, 2400, 1200, 900, 868, 433, 72, 35])
        }
        _ => panic!(),
    }
    match PowerMeterKind::ImmersionRcV2.capability() {
        FrequencyCapability::ProgrammableBand { bands_mhz } => assert_eq!(bands_mhz.len(), 16),
        _ => panic!(),
    }
    assert!(matches!(
        PowerMeterKind::GenericManual.capability(),
        FrequencyCapability::Manual { min_mhz: 5000, max_mhz: 10000 }
    ));
    assert!(matches!(
        PowerMeterKind::GenericFullyProgrammable.capability(),
        FrequencyCapability::FullyProgrammable { min_mhz: 5000, max_mhz: 10000 }
    ));
}

#[test]
fn the_nearest_band_is_the_first_of_those_as_near() {
    assert_eq!(nearest_band(&[5800, 2400], 5658), 5800);
    assert_eq!(nearest_band(&[10, 20], 15), 10);
    assert_eq!(nearest_band(&[20, 10], 15), 20);
    assert_eq!(nearest_band(&[], 1234), 1234);
    assert_eq!(freq_to_v2_index(5658), 8);
    assert_eq!(freq_to_v2_index(5675), 8);
    assert_eq!(freq_to_v2_index(1), 0);
    assert_eq!(freq_to_v2_index(9000), 15);
}

#[test]
fn commands_for_meters() {
    let v1 = PowerMeterKind::ImmersionRcV1;
    let v2 = PowerMeterKind::ImmersionRcV2;
    assert_eq!(v1.command(MeterQuery::ReadDbm), Ok("D\r\n"));
    assert_eq!(v1.command(MeterQuery::CheckAlive), Ok("V\r\n"));
    assert_eq!(v2.command(MeterQuery::ReadPeakDbm), Ok("E\r\n"));
    assert_eq!(v2.command(MeterQuery::ReadFrequencyRaw), Ok("F\r\n"));
    assert_eq!(
        v1.command(MeterQuery::ReadPeakDbm),
        Err("read_peak_dbm not implemented for ImmersionRC V1 (only confirmed for ImmersionRC V2)"
            .to_string())
    );
    assert_eq!(
        PowerMeterKind::GenericManual.command(MeterQuery::ReadDbm),
        Err("read_dbm not implemented for Generic Manual (protocol unknown)".to_string())
    );
    assert_eq!(
        PowerMeterKind::GenericFullyProgrammable.command(MeterQuery::CheckAlive),
        Err("check_alive not implemented for Generic Fully Programmable (protocol unknown)"
            .to_string())
    );
    assert_eq!(v2.retune_command(5800), Some("F11\r\n".to_string()));
    assert_eq!(v1.retune_command(5800), None);
}

#[test]
fn answers_of_meters() {
    assert_eq!(answer_line("  -12.5\r\n"), Some("-12.5".to_string()));
    assert_eq!(answer_line("\r\n"), None);
    assert_eq!(parse_frequency_raw("11"), Some(11));
    assert_eq!(parse_frequency_raw("4294967295"), Some(u32::MAX));
    assert_eq!(parse_frequency_raw("4294967296"), None);
    assert_eq!(parse_frequency_raw("x"), None);
}

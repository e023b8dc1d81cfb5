use vtx_tool::msp::{
    decode_osd_canvas, decode_pa_calibration, decode_pa_calibration_reading, decode_vtx_band,
    decode_vtx_config, decode_vtx_power_level, encode_displayport_clear,
    encode_displayport_draw_screen, encode_displayport_draw_string, encode_displayport_keepalive,
    encode_displayport_release, encode_pa_calibration, encode_pa_calibration_request,
    encode_vtx_band, encode_vtx_power_level, vtx_band_named, PaCalibration, VtxBand, VtxPowerLevel,
};

#[test]
fn a_short_reading_lacks_its_later_fields() {
    let r = decode_pa_calibration_reading(&[3, 0x10, 0x0B, 0x02, 0x01]).unwrap();
    assert_eq!(r.power_level, 3);
    assert_eq!(r.vref_mv, 0x0B10);
    assert_eq!(r.detector_mv, 0x0102);
    assert_eq!(r.boost_on, None);
    assert_eq!(r.session_active, None);
    assert_eq!(r.pa_temp_c_x10, None);
}

#[test]
fn a_long_reading_has_all_its_fields() {
    let p = [1, 2, 0, 3, 0, 1, 2, 0, 0xA8, 0x16, 1, 0x34, 0x12, 0xFB, 0xFF];
    let r = decode_pa_calibration_reading(&p).unwrap();
    assert_eq!(r.boost_on, Some(true));
    assert_eq!(r.rtc6705_level, Some(2));
    assert_eq!(r.pid_active, Some(false));
    assert_eq!(r.frequency_mhz, Some(5800));
    assert_eq!(r.session_active, Some(true));
    assert_eq!(r.ntc_raw, Some(0x1234));
    assert_eq!(r.pa_temp_c_x10, Some(-5));
    assert_eq!(decode_pa_calibration_reading(&p[..14]).unwrap().pa_temp_c_x10, None);
    assert_eq!(decode_pa_calibration_reading(&p[..14]).unwrap().session_active, Some(true));
    assert_eq!(decode_pa_calibration_reading(&p[..10]).unwrap().session_active, None);
}

#[test]
fn short_payloads_are_refused_with_their_length() {
    let e = decode_pa_calibration_reading(&[0; 4]).unwrap_err();
    assert_eq!(e.message(), "PACALIBRATION payload too short: 4 bytes");
    let e = decode_vtx_config(&[0; 14]).unwrap_err();
    assert_eq!(e.message(), "MSP_VTX_CONFIG payload too short: 14 bytes");
    let e = decode_vtx_band(&[0; 28]).unwrap_err();
    assert_eq!(e.message(), "SET_VTXTABLE_BAND payload too short: 28 bytes");
    let e = decode_vtx_power_level(&[0; 3]).unwrap_err();
    assert_eq!(e.message(), "SET_VTXTABLE_POWERLEVEL payload too short: 3 bytes");
    let e = decode_pa_calibration(&[0; 30]).unwrap_err();
    assert_eq!(e.message(), "PACALTABLE payload too short: 30 bytes");
}

#[test]
fn calibration_requests_have_five_bytes() {
    assert_eq!(encode_pa_calibration_request(4, Some(0x0C1C), true, 2), vec![4, 0x1C, 0x0C, 1, 2]);
    assert_eq!(encode_pa_calibration_request(0, None, false, 0), vec![0, 0, 0, 0, 0]);
}

#[test]
fn displayport_payloads() {
    assert_eq!(encode_displayport_keepalive(), vec![0]);
    assert_eq!(encode_displayport_release(), vec![1]);
    assert_eq!(encode_displayport_clear(), vec![2]);
    assert_eq!(encode_displayport_draw_screen(), vec![4]);
    assert_eq!(encode_displayport_draw_string(2, 1, "AB"), vec![3, 2, 1, 0, b'A', b'B']);
    assert_eq!(encode_displayport_draw_string(2, 28, "ABCD"), vec![3, 2, 28, 0, b'A', b'B']);
    assert_eq!(encode_displayport_draw_string(2, 30, "ABCD"), vec![3, 2, 30, 0]);
    assert_eq!(encode_displayport_draw_string(2, 200, "ABCD"), vec![3, 2, 200, 0]);
}

#[test]
fn the_canvas_has_columns_and_rows() {
    assert_eq!(decode_osd_canvas(&[53, 20, 9]), Some((53, 20)));
    assert_eq!(decode_osd_canvas(&[53]), None);
}

#[test]
fn a_config_is_read_field_by_field() {
    let c = decode_vtx_config(&[5, 1, 2, 3, 1, 0xA8, 0x16, 1, 0, 1, 0, 1, 6, 8, 4]).unwrap();
    assert_eq!((c.vtx_type, c.band, c.channel, c.power), (5, 1, 2, 3));
    assert!(c.pitmode && c.device_ready && c.vtx_table_available);
    assert_eq!(c.frequency_mhz, 5800);
    assert_eq!(c.pit_mode_freq, 1);
    assert_eq!((c.band_count, c.channel_count, c.power_level_count), (6, 8, 4));
}

fn band() -> VtxBand {
    VtxBand {
        index: 3,
        name: "RACE".to_string(),
        letter: 'R',
        is_factory: true,
        channel_count: 8,
        freqs_mhz: [5658, 5695, 5732, 5769, 5806, 5843, 5880, 5917],
    }
}

#[test]
fn a_band_is_read_back() {
    let bytes = encode_vtx_band(&band());
    assert_eq!(bytes.len(), 29);
    assert_eq!(&bytes[2..10], b"RACE    ");
    let b = decode_vtx_band(&bytes).unwrap();
    assert_eq!(b.index, 3);
    assert_eq!(b.name, "RACE");
    assert_eq!(b.letter, 'R');
    assert!(b.is_factory);
    assert_eq!(b.channel_count, 8);
    assert_eq!(b.freqs_mhz, band().freqs_mhz);
}

#[test]
fn a_long_band_name_is_cut() {
    let mut b = band();
    b.name = "BOSCAM_A_LONG".to_string();
    assert_eq!(decode_vtx_band(&encode_vtx_band(&b)).unwrap().name, "BOSCAM_A");
}

#[test]
fn a_name_in_other_letters_is_decoded() {
    let mut bytes = encode_vtx_band(&band());
    bytes[1] = 200;
    bytes[2..10].copy_from_slice(&[0xC3, 0xA9, b'x', 0xFF, b' ', b' ', b' ', b' ']);
    assert_eq!(decode_vtx_band(&bytes).unwrap().name, "\u{e9}x\u{fffd}");
    bytes[1] = 3;
    assert_eq!(decode_vtx_band(&bytes).unwrap().name, "\u{e9}x");
    assert_eq!(vtx_band_named(&bytes, " q \t").name, " q");
}

#[test]
fn a_power_level_is_read_back() {
    let l = VtxPowerLevel { index: 2, m_w: 400, label: "400".to_string() };
    let bytes = encode_vtx_power_level(&l);
    assert_eq!(bytes, vec![2, 144, 1, 3, b'4', b'0', b'0']);
    let back = decode_vtx_power_level(&bytes).unwrap();
    assert_eq!((back.index, back.m_w, back.label.as_str()), (2, 400, "400"));
    let cut = decode_vtx_power_level(&bytes[..5]).unwrap();
    assert_eq!(cut.label, "4");
    let long = VtxPowerLevel { index: 1, m_w: 1, label: "x".repeat(300) };
    assert_eq!(encode_vtx_power_level(&long).len(), 4 + 255);
    let bad = decode_vtx_power_level(&[1, 0, 0, 1, 0xFF]).unwrap();
    assert_eq!(bad.label, "\u{fffd}");
}

#[test]
fn a_calibration_entry_is_read_back_without_its_flags() {
    let e = PaCalibration {
        idx: 2,
        m_w: 200,
        value: [1, 2, 3, 4, 5, 6, 700],
        detector: [10, 20, 30, 40, 50, 60, 7000],
        ext_pa_enable: true,
        rtc6705_level: 3,
        dac_sign_inverted: false,
    };
    let bytes = encode_pa_calibration(&e);
    assert_eq!(bytes.len(), 31);
    let back = decode_pa_calibration(&bytes).unwrap();
    assert_eq!((back.idx, back.m_w, back.value, back.detector), (2, 200, e.value, e.detector));
    assert!(!back.ext_pa_enable);
    assert_eq!(back.rtc6705_level, 0);
}

#[test]
fn the_flag_of_a_calibration_entry_means_two_things() {
    let mut p = vec![0u8; 33];
    p[31] = 1;
    p[32] = 2;
    let first = decode_pa_calibration(&p).unwrap();
    assert!(first.dac_sign_inverted && !first.ext_pa_enable);
    p[0] = 1;
    let level = decode_pa_calibration(&p).unwrap();
    assert!(!level.dac_sign_inverted && level.ext_pa_enable);
    assert_eq!(level.rtc6705_level, 2);
    assert!(!decode_pa_calibration(&p[..32]).unwrap().ext_pa_enable);
}

#[test]
fn defaults() {
    let b = VtxBand::default();
    assert_eq!((b.index, b.name.as_str(), b.letter, b.channel_count), (0, "", '?', 8));
    let e = PaCalibration::default();
    assert_eq!((e.idx, e.m_w, e.value), (0, 0, [0; 7]));
    assert_eq!(band().clone().name, "RACE");
}

use vtx_tool::msp::frame::{
    build_command_v1, build_command_v2, checksum_v1, checksum_v2, crc8_dvb_s2, FrameParser, MspFrame,
};

fn frames_in(bytes: &[u8]) -> Vec<MspFrame> {
    let mut parser = FrameParser::new();
    let mut found = Vec::new();
    for &b in bytes {
        if let Some(frame) = parser.push(b) {
            found.push(frame);
        }
    }
    found
}

#[test]
fn a_version_1_command_is_read_back() {
    let bytes = build_command_v1(88, &[1, 2, 3]);
    assert_eq!(bytes, vec![36, 77, 60, 3, 88, 1, 2, 3, 3 ^ 88 ^ 1 ^ 2 ^ 3]);
    let found = frames_in(&bytes);
    assert_eq!(found.len(), 1);
    assert!(!found[0].is_v2);
    assert_eq!(found[0].msp_type, b'<');
    assert_eq!(found[0].function, 88);
    assert_eq!(found[0].payload, vec![1, 2, 3]);
}

#[test]
fn a_version_2_command_is_read_back() {
    let bytes = build_command_v2(0x4802, Some(&[9, 8]));
    assert_eq!(bytes[..8], [36, 88, 60, 0, 0x02, 0x48, 2, 0]);
    let found = frames_in(&bytes);
    assert_eq!(found.len(), 1);
    assert!(found[0].is_v2);
    assert_eq!(found[0].function, 0x4802);
    assert_eq!(found[0].payload, vec![9, 8]);
}

#[test]
fn a_version_2_command_without_a_payload_has_an_empty_one() {
    assert_eq!(build_command_v2(0x4800, None), build_command_v2(0x4800, Some(&[])));
    assert_eq!(build_command_v2(0x4800, None)[6..8], [0, 0]);
}

#[test]
fn noise_and_broken_frames_are_passed_over() {
    let mut stream = vec![1, 2, b'M', b'<'];
    let mut broken = build_command_v1(5, &[7]);
    let last = broken.len() - 1;
    broken[last] ^= 0xFF;
    stream.extend_from_slice(&broken);
    stream.extend_from_slice(b"$Q");
    stream.extend_from_slice(b"$M?");
    stream.extend_from_slice(&build_command_v2(300, Some(&[1])));
    stream.push(0);
    stream.extend_from_slice(&build_command_v1(6, &[]));
    let found = frames_in(&stream);
    let functions: Vec<u16> = found.iter().map(|f| f.function).collect();
    assert_eq!(functions, vec![300, 6]);
}

#[test]
fn a_second_dollar_sign_spoils_the_first() {
    let mut stream = vec![b'$'];
    stream.extend_from_slice(&build_command_v1(6, &[]));
    assert_eq!(frames_in(&stream).len(), 0);
}

#[test]
fn answers_and_errors_are_frames_too() {
    for kind in [b'>', b'!'] {
        let mut bytes = build_command_v1(9, &[4]);
        bytes[2] = kind;
        let found = frames_in(&bytes);
        assert_eq!(found.len(), 1);
        assert_eq!(found[0].msp_type, kind);
    }
}

#[test]
fn checksums_have_known_values() {
    assert_eq!(checksum_v1(&[1, 2, 4]), 7);
    assert_eq!(checksum_v1(&[]), 0);
    assert_eq!(crc8_dvb_s2(0, 0), 0);
    assert_eq!(crc8_dvb_s2(0, 1), 0xD5);
    assert_eq!(checksum_v2(b"123456789"), 0xBC);
}

#[test]
fn long_payloads_write_their_length_in_two_bytes() {
    let payload = vec![0x55; 300];
    let bytes = build_command_v2(1, Some(&payload));
    assert_eq!(bytes[6], 44);
    assert_eq!(bytes[7], 1);
    let found = frames_in(&bytes);
    assert_eq!(found[0].payload, payload);
    let short = build_command_v1(1, &payload);
    assert_eq!(short[3], 44);
}

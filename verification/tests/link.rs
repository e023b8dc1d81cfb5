use vtx_tool::msp::frame::build_command_v2;
use vtx_tool::msp::link::{MspCommandKind, MspLink, SendBlocked};

const MS: u64 = 1_000_000;

#[test]
fn a_retune_keeps_the_link_quiet() {
    let mut link = MspLink::new(0);
    assert!(link.can_send_now(0));
    assert_eq!(link.blocked_for(0), None);
    link.note_sent(MspCommandKind::Retune, 10 * MS);
    assert!(!link.can_send_now(10 * MS));
    assert_eq!(link.blocked_for(20 * MS), Some(40 * MS));
    assert_eq!(link.send(20 * MS), Err(SendBlocked { remaining: 40 * MS }));
    assert!(link.can_send_now(60 * MS));
    assert_eq!(link.send(60 * MS), Ok(()));
}

#[test]
fn other_commands_do_not() {
    let mut link = MspLink::new(5);
    link.note_sent(MspCommandKind::Calibration, 7);
    link.note_sent(MspCommandKind::Other, 7);
    assert!(link.can_send_now(7));
    link.note_sent(MspCommandKind::Retune, 0);
    link.note_sent(MspCommandKind::Other, 1);
    assert!(!link.can_send_now(2));
    assert_eq!(MspCommandKind::Retune.settle_duration(), 50 * MS);
    assert_eq!(MspCommandKind::Other.settle_duration(), 0);
}

#[test]
fn frames_are_counted_each_way() {
    let mut link = MspLink::new(0);
    link.note_written();
    link.note_written();
    link.note_received();
    assert_eq!(link.tx_rx_counts(), (2, 1));
}

#[test]
fn a_command_is_framed_where_the_link_is_free() {
    let mut link = MspLink::new(0);
    assert_eq!(link.send_v1(88, &[1, 2], 0), Ok(vec![36, 77, 60, 2, 88, 1, 2, 2 ^ 88 ^ 1 ^ 2]));
    assert_eq!(link.send_v2(1, None, 0), Ok(build_command_v2(1, Some(&[]))));
    link.note_sent(MspCommandKind::Retune, 0);
    assert_eq!(link.send_v1(88, &[1, 2], MS), Err(SendBlocked { remaining: 49 * MS }));
    assert_eq!(link.send_v2(1, Some(&[3]), 49 * MS), Err(SendBlocked { remaining: MS }));
    assert_eq!(link.send_v2(1, Some(&[3]), 50 * MS), Ok(build_command_v2(1, Some(&[3]))));
}

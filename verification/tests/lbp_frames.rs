use ne_g3::adp::{LbpEvent, TExtendedAddress};
use ne_g3::lbp::{
    adp_message_to_lbp_message, AcceptedMessage, ChallengeMessage, DeclineMessage,
    KickToLbdMessage, LbpMessage, LbpMessageType,
};

const ADDR: [u8; 8] = [0x10, 0x11, 0x12, 0x13, 0x14, 0x15, 0x16, 0x17];

#[test]
fn challenge_frame_bytes() {
    let v = ChallengeMessage { ext_addr: TExtendedAddress(ADDR), bootstrapping_data: vec![0xEE] }.into();
    let mut expected = vec![0xA0, 0x00];
    expected.extend_from_slice(&ADDR);
    expected.push(0xEE);
    assert_eq!(v, expected);
}

#[test]
fn accepted_and_decline_frames() {
    let v = AcceptedMessage { ext_addr: TExtendedAddress(ADDR), bootstrapping_data: vec![] }.into();
    assert_eq!(v[0], 0x90);
    assert_eq!(v.len(), 10);
    let d = DeclineMessage::new(TExtendedAddress(ADDR)).into();
    assert_eq!(d[0], 0xB0);
    let k = KickToLbdMessage { ext_addr: TExtendedAddress(ADDR) }.into();
    assert_eq!(k[0], 0xC0);
}

#[test]
fn joining_frame_decodes() {
    let mut nsdu = vec![0x10, 0x00];
    nsdu.extend_from_slice(&ADDR);
    nsdu.extend_from_slice(&[1, 2, 3]);
    match adp_message_to_lbp_message(&LbpEvent { nsdu }) {
        Some(LbpMessage::Joining(j)) => {
            assert_eq!(j.ext_addr.0, ADDR);
            assert_eq!(j.bootstrapping_data, vec![1, 2, 3]);
        }
        other => panic!("unexpected {:?}", other),
    }
}

#[test]
fn frame_roundtrip() {
    let v = ChallengeMessage { ext_addr: TExtendedAddress(ADDR), bootstrapping_data: vec![4, 5] }.into();
    match adp_message_to_lbp_message(&LbpEvent { nsdu: v }) {
        Some(LbpMessage::Challenge(c)) => {
            assert_eq!(c.ext_addr.0, ADDR);
            assert_eq!(c.bootstrapping_data, vec![4, 5]);
        }
        other => panic!("unexpected {:?}", other),
    }
}

#[test]
fn short_or_unknown_frames_do_not_decode() {
    assert!(adp_message_to_lbp_message(&LbpEvent { nsdu: vec![0x10; 9] }).is_none());
    let mut nsdu = vec![0xF0, 0x00];
    nsdu.extend_from_slice(&ADDR);
    assert!(adp_message_to_lbp_message(&LbpEvent { nsdu }).is_none());
}

#[test]
fn message_type_values() {
    assert_eq!(LbpMessageType::LBP_JOINING.into_primitive(), 1);
    assert_eq!(LbpMessageType::try_from_primitive(0x0A), Some(LbpMessageType::LBP_CHALLENGE));
    assert_eq!(LbpMessageType::try_from_primitive(2), None);
    assert_eq!(LbpMessageType::try_from_primitive(0), None);
}

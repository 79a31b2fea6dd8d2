use ne_g3::adp::{
    self, usi_message_to_message, AdpG3, EAdpPibAttribute, EAdpStatus, EMacWrpPibAttribute,
    Message, TAdpBand,
};
use ne_g3::common;
use ne_g3::usi::{InMessage, RxState};

fn content(bytes: &[u8]) -> InMessage {
    let mut m = InMessage::new();
    m.buf = bytes.to_vec();
    m.rxState = RxState::RxDone;
    m.protocol_type = Some(common::PROTOCOL_ADP_G3);
    m.payload_len = bytes.len();
    m
}

#[test]
fn status_response_decodes() {
    match usi_message_to_message(&content(&[adp::G3_SERIAL_MSG_STATUS, 0x0A])) {
        Some(Message::AdpG3(AdpG3::MsgStatusResponse(r))) => {
            assert_eq!(r.status, EAdpStatus::G3_SUCCESS);
            assert_eq!(r.cmd, 0x0A);
        }
        other => panic!("unexpected {:?}", other),
    }
}

#[test]
fn network_start_confirm_decodes() {
    match usi_message_to_message(&content(&[adp::G3_SERIAL_MSG_ADP_NETWORK_START_CONFIRM, 0x00])) {
        Some(Message::AdpG3(AdpG3::NetworkStartResponse(r))) => {
            assert_eq!(r.status, EAdpStatus::G3_SUCCESS)
        }
        other => panic!("unexpected {:?}", other),
    }
}

#[test]
fn discovery_indication_decodes() {
    let b = [adp::G3_SERIAL_MSG_ADP_DISCOVERY_INDICATION, 0x78, 0x1D, 0x55, 0x00, 0x02, 0x01, 0x00];
    match usi_message_to_message(&content(&b)) {
        Some(Message::AdpG3(AdpG3::DiscoveryEvent(e))) => {
            assert_eq!(e.pan_descriptor.pan_id, 0x781D);
            assert_eq!(e.pan_descriptor.link_quality, 0x55);
            assert_eq!(e.pan_descriptor.lba_address, 0x0002);
            assert_eq!(e.pan_descriptor.rc_coord, 0x0100);
        }
        other => panic!("unexpected {:?}", other),
    }
}

#[test]
fn get_confirm_decodes() {
    let b = [
        adp::G3_SERIAL_MSG_ADP_GET_CONFIRM, 0x00, 0x00, 0x00, 0x00, 0x08, 0x00, 0x00, 0x02, 0x12,
        0x34,
    ];
    match usi_message_to_message(&content(&b)) {
        Some(Message::AdpG3(AdpG3::GetResponse(r))) => {
            assert_eq!(r.status, EAdpStatus::G3_SUCCESS);
            assert_eq!(r.attribute_id, 0x08);
            assert_eq!(r.attribute_idx, 0);
            assert_eq!(r.attribute_val, vec![0x12, 0x34]);
        }
        other => panic!("unexpected {:?}", other),
    }
}

#[test]
fn unknown_or_short_content_does_not_decode() {
    assert!(usi_message_to_message(&content(&[])).is_none());
    assert!(usi_message_to_message(&content(&[0xEE, 0x00])).is_none());
    assert!(usi_message_to_message(&content(&[adp::G3_SERIAL_MSG_STATUS])).is_none());
    // the status is read from the first byte, the message code itself
    match usi_message_to_message(&content(&[adp::G3_SERIAL_MSG_STATUS, 0x7F])) {
        Some(Message::AdpG3(AdpG3::MsgStatusResponse(r))) => {
            assert_eq!(r.status, EAdpStatus::G3_SUCCESS);
            assert_eq!(r.cmd, 0x7F);
        }
        other => panic!("unexpected {:?}", other),
    }
    assert!(usi_message_to_message(&content(&[adp::G3_SERIAL_MSG_ADP_NETWORK_START_CONFIRM, 0x7F])).is_none());
}

#[test]
fn enum_values_roundtrip() {
    assert_eq!(TAdpBand::ADP_BAND_ARIB.into_primitive(), 3);
    assert_eq!(TAdpBand::try_from_primitive(1), Some(TAdpBand::ADP_BAND_CENELEC_B));
    assert_eq!(TAdpBand::try_from_primitive(4), None);
    assert_eq!(EAdpStatus::G3_TIMEOUT.into_primitive(), 0xA6);
    assert_eq!(EAdpStatus::try_from_primitive(0xA6), Some(EAdpStatus::G3_TIMEOUT));
    assert_eq!(EAdpPibAttribute::ADP_IB_MAX_HOPS.into_primitive(), 0x0F);
    assert_eq!(
        EMacWrpPibAttribute::try_from_primitive(0x08000001),
        Some(EMacWrpPibAttribute::MAC_WRP_PIB_MANUF_EXTENDED_ADDRESS)
    );
}

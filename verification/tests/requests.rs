use ne_g3::adp::{self, EAdpPibAttribute, EMacWrpPibAttribute, TAddress, TAdpBand, TExtendedAddress};
use ne_g3::common;
use ne_g3::request::{
    AdpDataRequest, AdpDiscoveryRequest, AdpGetRequest, AdpInitializeRequest,
    AdpJoinNetworkRequest, AdpLbpRequest, AdpMacGetRequest, AdpMacSetRequest,
    AdpNetworkStartRequest, AdpSetRequest,
};

#[test]
fn initialize_request_bytes() {
    let m = AdpInitializeRequest::from_band(&TAdpBand::ADP_BAND_FCC).into();
    assert_eq!(m.protocol, common::PROTOCOL_ADP_G3);
    assert_eq!(m.data, vec![adp::G3_SERIAL_MSG_ADP_INITIALIZE, 2]);
}

#[test]
fn discovery_and_start_and_join_bytes() {
    assert_eq!(
        AdpDiscoveryRequest::new(15).into().data,
        vec![adp::G3_SERIAL_MSG_ADP_DISCOVERY_REQUEST, 15]
    );
    assert_eq!(
        AdpNetworkStartRequest::new(0x781D).into().data,
        vec![adp::G3_SERIAL_MSG_ADP_NETWORK_START_REQUEST, 0x78, 0x1D]
    );
    let join = AdpJoinNetworkRequest { pan_id: 0x1234, lba_address: 0x0002 };
    assert_eq!(
        join.into().data,
        vec![adp::G3_SERIAL_MSG_ADP_NETWORK_JOIN_REQUEST, 0x12, 0x34, 0x00, 0x02]
    );
}

#[test]
fn get_requests_bytes() {
    assert_eq!(
        AdpGetRequest::new(EAdpPibAttribute::ADP_IB_COORD_SHORT_ADDRESS, 1).into().data,
        vec![adp::G3_SERIAL_MSG_ADP_GET_REQUEST, 0, 0, 0, 0x08, 0, 1]
    );
    assert_eq!(
        AdpMacGetRequest::new(EMacWrpPibAttribute::MAC_WRP_PIB_MANUF_EXTENDED_ADDRESS, 0)
            .into()
            .data,
        vec![adp::G3_SERIAL_MSG_ADP_MAC_GET_REQUEST, 0x08, 0, 0, 0x01, 0, 0]
    );
}

#[test]
fn set_requests_bytes() {
    let v = vec![0x05];
    assert_eq!(
        AdpSetRequest::new(EAdpPibAttribute::ADP_IB_SECURITY_LEVEL, 0, &v).into().data,
        vec![adp::G3_SERIAL_MSG_ADP_SET_REQUEST, 0, 0, 0, 0, 0, 0, 1, 0x05]
    );
    let w = vec![0x78, 0x1D];
    assert_eq!(
        AdpMacSetRequest::new(EMacWrpPibAttribute::MAC_WRP_PIB_PAN_ID, 0, &w).into().data,
        vec![adp::G3_SERIAL_MSG_ADP_MAC_SET_REQUEST, 0, 0, 0, 0x50, 0, 0, 2, 0x78, 0x1D]
    );
}

#[test]
fn data_request_bytes() {
    let pkt = vec![0x60, 0x00, 0x00];
    assert_eq!(
        AdpDataRequest::new(7, &pkt, true, 0).into().data,
        vec![adp::G3_SERIAL_MSG_ADP_DATA_REQUEST, 7, 1, 0, 0, 3, 0x60, 0x00, 0x00]
    );
}

#[test]
fn lbp_request_bytes() {
    let a = TExtendedAddress([1, 2, 3, 4, 5, 6, 7, 8]);
    let r = AdpLbpRequest::new(TAddress::Extended(a), vec![0xAA], 3, 10, true, 0, false);
    assert_eq!(
        r.into().data,
        vec![adp::G3_SERIAL_MSG_ADP_LBP_REQUEST, 3, 10, 1, 0, 0, 8, 0, 1, 1, 2, 3, 4, 5, 6, 7, 8, 0xAA]
    );
    let s = AdpLbpRequest::new(TAddress::Short(0x0102), vec![], 1, 4, false, 0, true);
    assert_eq!(
        s.into().data,
        vec![adp::G3_SERIAL_MSG_ADP_LBP_REQUEST, 1, 4, 0, 0, 1, 2, 0, 0, 0x01, 0x02]
    );
}

#[test]
fn address_bytes() {
    let v: Vec<u8> = TAddress::Short(0xABCD).into();
    assert_eq!(v, vec![0xAB, 0xCD]);
    let e: Vec<u8> = TAddress::Extended(TExtendedAddress([9; 8])).into();
    assert_eq!(e, vec![9; 8]);
}

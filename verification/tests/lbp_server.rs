use aes::cipher::generic_array::GenericArray;
use aes::Aes128;
use eax::aead::{Aead, Payload};
use eax::{Eax, NewAead};

use ne_g3::adp::{EAdpStatus, LbpReponse, TAddress, TExtendedAddress};
use ne_g3::app_config::G3;
use ne_g3::lbp::{
    AcceptedMessage, ChallengeMessage, DeclineMessage, JoiningMessage, LbpMessage,
};
use ne_g3::lbp_functions::{
    TEapPskContext, TEapPskKey, TEapPskRand, TEapPskNetworkAccessIdentifier, eap_psk_initialize, eap_psk_initialize_tek, eap_psk_encode_message2, EAP_REQUEST, EAP_RESPONSE, EAP_SUCCESS, EAP_PSK_IANA_TYPE, EAP_PSK_T0, EAP_PSK_T1, EAP_PSK_T2, EAP_PSK_T3,
};
use ne_g3::lbp_manager::{DeviceManager, DeviceSlot, DeviceState, LbpManager};
use ne_g3::request::AdpLbpRequest;

const PSK: [u8; 16] = [
    0xAB, 0x10, 0x34, 0x11, 0x45, 0x11, 0x1B, 0xC3, 0xC1, 0x2D, 0xE8, 0xFF, 0x11, 0x14, 0x22, 0x04,
];
const GMK: [u8; 16] = [
    0xAF, 0x4D, 0x6D, 0xCC, 0xF1, 0x4D, 0xE7, 0xC1, 0xC4, 0x23, 0x5E, 0x6F, 0xEF, 0x6C, 0x15, 0x1F,
];
const DEV: [u8; 8] = [0xA0, 0xA1, 0xA2, 0xA3, 0xA4, 0xA5, 0xA6, 0xA7];
const DEV2: [u8; 8] = [0xB0, 0xB1, 0xB2, 0xB3, 0xB4, 0xB5, 0xB6, 0xB7];

fn settings(band: u8) -> G3 {
    G3 {
        mode: 0,
        pan_id: 0x781D,
        band,
        psk: PSK,
        psk_2: [0; 16],
        gmk: GMK.to_vec(),
        rekey_gmk: vec![0x11; 16],
        ids: vec![],
        context_information_table_0: vec![],
        context_information_table_1: vec![],
        ids_arib: vec![0x53; 34],
        ids_cenelec_fcc: vec![0x81, 0x72, 0x63, 0x54, 0x45, 0x36, 0x27, 0x18],
        max_hops: 10,
        discovery_timeout_secs: 15,
    }
}

fn joining(addr: [u8; 8], data: Vec<u8>) -> LbpMessage {
    LbpMessage::Joining(JoiningMessage { ext_addr: TExtendedAddress(addr), bootstrapping_data: data })
}

fn check_request(r: &AdpLbpRequest, addr: [u8; 8]) {
    match r.dst_addr {
        TAddress::Extended(a) => assert_eq!(a.0, addr),
        _ => panic!("short address"),
    }
    assert_eq!(r.max_hops, 10);
    assert!(r.discover_route);
    assert_eq!(r.quality_of_service, 0);
    assert!(!r.security_enable);
}

/// The EAP message carried by an LBP frame sent to `addr`.
fn eap_of(frame: &[u8], kind: u8, addr: [u8; 8]) -> Vec<u8> {
    assert_eq!(frame[0], kind);
    assert_eq!(frame[1], 0);
    assert_eq!(&frame[2..10], &addr);
    frame[10..].to_vec()
}

/// What a device with the pre-shared key derives.
fn device_keys(rand_p: [u8; 16]) -> TEapPskContext {
    let mut ctx = TEapPskContext::new();
    eap_psk_initialize(&TEapPskKey(PSK), &mut ctx);
    eap_psk_initialize_tek(&TEapPskRand(rand_p), &mut ctx);
    ctx
}

fn message2(ident: u8, rand_s: [u8; 16], rand_p: [u8; 16], id_s: &[u8]) -> Vec<u8> {
    let ctx = device_keys(rand_p);
    let mut buf = Vec::with_capacity(64);
    eap_psk_encode_message2(
        &ctx,
        ident,
        &TEapPskRand(rand_s),
        &TEapPskRand(rand_p),
        &TEapPskNetworkAccessIdentifier(id_s.to_vec()),
        &TEapPskNetworkAccessIdentifier(DEV.to_vec()),
        &mut buf,
    );
    buf
}

fn message4(ident: u8, rand_s: [u8; 16], rand_p: [u8; 16], nonce: [u8; 4]) -> Vec<u8> {
    let ctx = device_keys(rand_p);
    let plain = [0x80u8, 1, 2, 3, 4];
    let len = (22 + 4 + 16 + plain.len()) as u8;
    let mut header = vec![EAP_RESPONSE, ident, 0, len, EAP_PSK_IANA_TYPE, EAP_PSK_T3];
    header.extend_from_slice(&rand_s);
    let mut aad = header.clone();
    aad[0] >>= 2;
    let mut n = [0u8; 16];
    n[12..].copy_from_slice(&nonce);
    let cipher = Eax::<Aes128>::new(GenericArray::from_slice(&ctx.m_Tek.0));
    let c = cipher
        .encrypt(GenericArray::from_slice(&n), Payload { msg: &plain, aad: &aad })
        .unwrap();
    let mut m = header;
    m.extend_from_slice(&nonce);
    m.extend_from_slice(&c[plain.len()..]);
    m.extend_from_slice(&c[..plain.len()]);
    m
}

#[test]
fn empty_joining_starts_authentication() {
    let g3 = settings(0);
    let mut server = LbpManager::new(&g3);
    let req = server.process_msg(&joining(DEV, vec![])).unwrap();
    check_request(&req, DEV);
    assert_eq!(req.handle, 1);
    let eap = eap_of(&req.data, 0xA0, DEV);
    assert_eq!(eap.len(), 6 + 16 + 8);
    assert_eq!(&eap[..6], &[EAP_REQUEST, 0, 0, 30, EAP_PSK_IANA_TYPE, EAP_PSK_T0]);
    assert_eq!(&eap[22..], &g3.ids_cenelec_fcc[..]);
}

#[test]
fn arib_band_uses_its_identity() {
    let mut server = LbpManager::new(&settings(3));
    let req = server.process_msg(&joining(DEV, vec![])).unwrap();
    let eap = eap_of(&req.data, 0xA0, DEV);
    assert_eq!(&eap[22..], &[0x53; 34][..]);
}

#[test]
fn full_bootstrap() {
    let g3 = settings(0);
    let mut server = LbpManager::new(&g3);
    let req1 = server.process_msg(&joining(DEV, vec![])).unwrap();
    let msg1 = eap_of(&req1.data, 0xA0, DEV);
    let mut rand_s = [0u8; 16];
    rand_s.copy_from_slice(&msg1[6..22]);
    let rand_p = [0x3C; 16];

    // second message: the server answers with the third
    let req3 = server
        .process_msg(&joining(DEV, message2(msg1[1], rand_s, rand_p, &g3.ids_cenelec_fcc)))
        .unwrap();
    check_request(&req3, DEV);
    assert_eq!(req3.handle, 2);
    let msg3 = eap_of(&req3.data, 0xA0, DEV);
    assert_eq!(msg3[0], EAP_REQUEST);
    assert_eq!(msg3[1], 1);
    assert_eq!(msg3[5], EAP_PSK_T2);
    assert_eq!(&msg3[6..22], &rand_s);
    assert_eq!(&msg3[38..42], &[0, 0, 0, 0]);
    let ctx = device_keys(rand_p);
    let mut aad = msg3[..22].to_vec();
    aad[0] >>= 2;
    let mut ct = msg3[58..].to_vec();
    ct.extend_from_slice(&msg3[42..58]);
    let cipher = Eax::<Aes128>::new(GenericArray::from_slice(&ctx.m_Tek.0));
    let plain = cipher
        .decrypt(GenericArray::from_slice(&[0u8; 16]), Payload { msg: &ct, aad: &aad })
        .unwrap();
    let mut expected = vec![0xA0, 0x02, 0x1D, 2, 0x00, 0x01, 0x27, 17, 0];
    expected.extend_from_slice(&GMK);
    expected.extend_from_slice(&[0x2B, 1, 0]);
    assert_eq!(plain, expected);

    // fourth message: the server accepts the device
    let req5 = server
        .process_msg(&joining(DEV, message4(msg3[1], rand_s, rand_p, [0, 0, 0, 0])))
        .unwrap();
    check_request(&req5, DEV);
    assert_eq!(req5.handle, 3);
    let success = eap_of(&req5.data, 0x90, DEV);
    assert_eq!(success, vec![EAP_SUCCESS, 2, 0, 4]);
}

#[test]
fn second_device_gets_next_short_address() {
    let g3 = settings(0);
    let mut server = LbpManager::new(&g3);
    server.process_msg(&joining(DEV, vec![])).unwrap();
    let req1 = server.process_msg(&joining(DEV2, vec![])).unwrap();
    let msg1 = eap_of(&req1.data, 0xA0, DEV2);
    assert_eq!(msg1[1], 1);
    let mut rand_s = [0u8; 16];
    rand_s.copy_from_slice(&msg1[6..22]);
    let rand_p = [0x77; 16];
    let req3 = server
        .process_msg(&joining(DEV2, message2(msg1[1], rand_s, rand_p, &g3.ids_cenelec_fcc)))
        .unwrap();
    let msg3 = eap_of(&req3.data, 0xA0, DEV2);
    let ctx = device_keys(rand_p);
    let mut aad = msg3[..22].to_vec();
    aad[0] >>= 2;
    let mut ct = msg3[58..].to_vec();
    ct.extend_from_slice(&msg3[42..58]);
    let cipher = Eax::<Aes128>::new(GenericArray::from_slice(&ctx.m_Tek.0));
    let plain = cipher
        .decrypt(GenericArray::from_slice(&[0u8; 16]), Payload { msg: &ct, aad: &aad })
        .unwrap();
    assert_eq!(&plain[1..6], &[0x02, 0x1D, 2, 0x00, 0x02]);
}

#[test]
fn wrong_rand_s_aborts() {
    let g3 = settings(0);
    let mut server = LbpManager::new(&g3);
    server.process_msg(&joining(DEV, vec![])).unwrap();
    let m2 = message2(0, [0xEE; 16], [1; 16], &g3.ids_cenelec_fcc);
    assert!(server.process_msg(&joining(DEV, m2)).is_none());
}

#[test]
fn message_out_of_turn_aborts() {
    let g3 = settings(0);
    let mut server = LbpManager::new(&g3);
    let req1 = server.process_msg(&joining(DEV, vec![])).unwrap();
    let msg1 = eap_of(&req1.data, 0xA0, DEV);
    let mut rand_s = [0u8; 16];
    rand_s.copy_from_slice(&msg1[6..22]);
    // a fourth message while the device is at the first one
    assert!(server.process_msg(&joining(DEV, message4(0, rand_s, [1; 16], [0; 4]))).is_none());
    // the device is back to waiting: its second message is no longer taken
    let m2 = message2(msg1[1], rand_s, [1; 16], &g3.ids_cenelec_fcc);
    assert!(server.process_msg(&joining(DEV, m2)).is_none());
}

#[test]
fn failed_confirm_gives_up() {
    let g3 = settings(0);
    let mut server = LbpManager::new(&g3);
    let req1 = server.process_msg(&joining(DEV, vec![])).unwrap();
    let msg1 = eap_of(&req1.data, 0xA0, DEV);
    let mut rand_s = [0u8; 16];
    rand_s.copy_from_slice(&msg1[6..22]);
    // the confirm carries the request's own handle
    server.process_response(&LbpReponse { handle: req1.handle, status: EAdpStatus::G3_FAILED });
    let m2 = message2(msg1[1], rand_s, [1; 16], &g3.ids_cenelec_fcc);
    assert!(server.process_msg(&joining(DEV, m2)).is_none());
}

#[test]
fn successful_confirm_keeps_going() {
    let g3 = settings(0);
    let mut server = LbpManager::new(&g3);
    let req1 = server.process_msg(&joining(DEV, vec![])).unwrap();
    let msg1 = eap_of(&req1.data, 0xA0, DEV);
    let mut rand_s = [0u8; 16];
    rand_s.copy_from_slice(&msg1[6..22]);
    server.process_response(&LbpReponse { handle: req1.handle, status: EAdpStatus::G3_SUCCESS });
    let m2 = message2(msg1[1], rand_s, [1; 16], &g3.ids_cenelec_fcc);
    assert!(server.process_msg(&joining(DEV, m2)).is_some());
}

#[test]
fn panicking_inputs_are_reported() {
    let g3 = settings(0);
    let mut server = LbpManager::new(&g3);
    let accepted = LbpMessage::Accepted(AcceptedMessage {
        ext_addr: TExtendedAddress(DEV),
        bootstrapping_data: vec![],
    });
    assert!(server.would_panic_on(&accepted));
    let challenge = LbpMessage::Challenge(ChallengeMessage {
        ext_addr: TExtendedAddress(DEV),
        bootstrapping_data: vec![],
    });
    assert!(server.would_panic_on(&challenge));
    assert!(server.would_panic_on(&LbpMessage::Decline(DeclineMessage::new(TExtendedAddress(DEV)))));
    assert!(!server.would_panic_on(&joining(DEV, vec![])));
    server.process_msg(&joining(DEV, vec![])).unwrap();
    let short_t1 = vec![EAP_RESPONSE, 0, 0, 10, EAP_PSK_IANA_TYPE, EAP_PSK_T1, 0, 0, 0, 0];
    assert!(server.would_panic_on(&joining(DEV, short_t1.clone())));
    // for a device that does not wait for it, the same message is only out of turn
    assert!(!server.would_panic_on(&joining(DEV2, short_t1)));
}

#[test]
fn device_slots() {
    let s = DeviceSlot::new(TExtendedAddress(DEV), 5);
    assert_eq!(s.state, DeviceState::BS_STATE_WAITING_JOINNING);
    assert_eq!(s.us_assigned_short_address, 5);
    assert_eq!(s.uc_tx_handle, 0xff);
    let mut t = DeviceSlot::new(TExtendedAddress(DEV2), 1);
    t.state = DeviceState::BS_STATE_SENT_EAP_MSG_3;
    t.uc_pending_confirms = 2;
    t.reset(TExtendedAddress(DEV), 9);
    assert_eq!(t.state, DeviceState::BS_STATE_WAITING_JOINNING);
    assert_eq!(t.uc_pending_confirms, 0);
    assert_eq!(t.m_lbd_address.0, DEV);
    assert_eq!(t.us_assigned_short_address, 9);
}

#[test]
fn device_manager_assigns_addresses_in_order() {
    let mut dm = DeviceManager::new();
    assert_eq!(dm.next_short_address(), 1);
    let a = dm.add_or_get_by_addr(&TExtendedAddress(DEV));
    let b = dm.add_or_get_by_addr(&TExtendedAddress(DEV2));
    let c = dm.add_or_get_by_addr(&TExtendedAddress(DEV));
    assert_eq!((a, b, c), (0, 1, 0));
    assert_eq!(dm.next_short_address(), 3);
    assert_eq!(dm.get_device_by_short_addr(2).unwrap().m_lbd_address.0, DEV2);
    assert!(dm.get_device_by_short_addr(3).is_none());
    assert_eq!(dm.get_device_by_addr(&TExtendedAddress(DEV)).unwrap().us_assigned_short_address, 1);
    assert!(dm.get_device_by_addr(&TExtendedAddress([0; 8])).is_none());
    assert_eq!(dm.get_devices().len(), 2);
}

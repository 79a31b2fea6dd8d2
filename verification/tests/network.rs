use ne_g3::adp::{
    self, AdpG3, BufferEvent, DataEvent, EAdpStatus, GetResponse, LbpEvent, Message,
    NetworkJoinResponse, NetworkStartResponse, SetResponse,
};
use ne_g3::app_config::{Network, Serial, Settings, G3};
use ne_g3::network_manager::{infer_proto, NetAction, NetworkManager, PacketProtocol, TunPayload};

fn settings() -> Settings {
    Settings {
        g3: G3 {
            mode: 0,
            pan_id: 0x781D,
            band: 0,
            psk: [1; 16],
            psk_2: [0; 16],
            gmk: vec![2; 16],
            rekey_gmk: vec![3; 16],
            ids: vec![],
            context_information_table_0: vec![],
            context_information_table_1: vec![],
            ids_arib: vec![],
            ids_cenelec_fcc: vec![4; 8],
            max_hops: 10,
            discovery_timeout_secs: 15,
        },
        serial: Serial { name: String::from("/dev/null"), speed: 921600 },
        network: Network {
            tun: None,
            ula_net_prefix: [0xfd, 0, 0, 0, 0, 2, 0x78, 0x1d],
            ula_host_prefix: [0x11, 0x22, 0x33, 0x44, 0x55, 0x66],
            local_net_prefix: [0xfe, 0x80, 0, 0, 0, 0, 0, 0],
            ula_net_prefix_len: 64,
            local_net_prefix_len: 64,
        },
    }
}

fn g3(m: AdpG3) -> Message {
    Message::AdpG3(m)
}

fn ipv6_packet(dst_last: [u8; 2]) -> Vec<u8> {
    let mut p = vec![0u8; 44];
    p[0] = 0x60;
    p[38] = dst_last[0];
    p[39] = dst_last[1];
    p
}

#[test]
fn address_helpers() {
    let mut a = [0u8; 16];
    a[0] = 0xfe;
    a[1] = 0x80;
    a[8] = 0x78;
    a[9] = 0x1d;
    a[14] = 0x00;
    a[15] = 0x05;
    assert!(NetworkManager::ipv6_is_unicast_link_local(&a));
    assert_eq!(NetworkManager::pan_id_and_short_addr_from_ipv6(&a), (0x781d, 5));
    assert_eq!(NetworkManager::short_addr_from_ipv6(&a), 5);
    assert_eq!(NetworkManager::ipv4_addr_from_ipv6(a), [10, 1, 0, 6]);
    a[1] = 0xc0;
    assert!(!NetworkManager::ipv6_is_unicast_link_local(&a));
    a[1] = 0xbf;
    assert!(NetworkManager::ipv6_is_unicast_link_local(&a));
}

#[test]
fn ipv4_roundtrip() {
    assert_eq!(NetworkManager::ipv4_from_short_addr(0x01FF), [10, 1, 0x02, 0x00]);
    assert_eq!(NetworkManager::short_addr_from_ipv4(&[10, 1, 0x02, 0x00]), 0x01FF);
    assert_eq!(NetworkManager::short_addr_from_ipv4(&NetworkManager::ipv4_from_short_addr(0)), 0);
}

#[test]
fn traffic_class() {
    assert_eq!(NetworkManager::dscp_ecn_to_traffic_class(0x2E, 0), 0xB8);
    assert_eq!(NetworkManager::traffic_class_to_dscp_ecn(0xB8), (0x2E, 0));
    assert_eq!(NetworkManager::traffic_class_to_dscp_ecn(0xB9), (0x2E, 1));
    assert_eq!(NetworkManager::dscp_ecn_to_traffic_class(0x2E, 1), 0xB9);
    assert_eq!(NetworkManager::dscp_ecn_to_traffic_class(0, 3), 3);
    // only the two low bits of the ECN are kept
    assert_eq!(NetworkManager::dscp_ecn_to_traffic_class(0, 0x84), 0);
    for d in 0..64u8 {
        for e in 0..4u8 {
            let tc = NetworkManager::dscp_ecn_to_traffic_class(d, e);
            assert_eq!(NetworkManager::traffic_class_to_dscp_ecn(tc), (d, e));
        }
    }
}

#[test]
fn made_up_extended_address() {
    assert_eq!(
        NetworkManager::get_extended_address_from_short_addr(0x0102),
        [0x11, 0x22, 0x33, 0x44, 0x55, 0x66, 0x01, 0x02]
    );
}

#[test]
fn protocol_of_packets() {
    assert_eq!(infer_proto(&[0x45, 0]), PacketProtocol::IPv4);
    assert_eq!(infer_proto(&[0x60]), PacketProtocol::IPv6);
    assert_eq!(infer_proto(&[0x10]), PacketProtocol::Other(1));
}

#[test]
fn tun_frames() {
    let p = ipv6_packet([0x00, 0x07]);
    match NetworkManager::ipv6_to_tun_payload_and_short_addr(&p, None) {
        Some((TunPayload::Data(d), s)) => {
            assert_eq!(d, p);
            assert_eq!(s, 7);
        }
        _ => panic!("no frame"),
    }
    match NetworkManager::ipv6_to_tun_payload_and_short_addr(&p, Some(30)) {
        Some((TunPayload::Data(d), _)) => {
            assert_eq!(&d[..4], &[0, 0, 0, 30]);
            assert_eq!(&d[4..], &p[..]);
        }
        _ => panic!("no frame"),
    }
    assert!(NetworkManager::ipv6_to_tun_payload_and_short_addr(&vec![0x60; 39], None).is_none());
}

#[test]
fn coordinator_start_sequence() {
    let s = settings();
    let mut nm = NetworkManager::new(&s, None);
    assert!(nm.buffers_available());
    let r = nm.handle_adp_message(g3(AdpG3::NetworkStartResponse(NetworkStartResponse { status: EAdpStatus::G3_SUCCESS })), 0);
    assert_eq!(r.len(), 1);
    match &r[0] {
        NetAction::SendUsi(m) => assert_eq!(m.data, vec![adp::G3_SERIAL_MSG_ADP_GET_REQUEST, 0, 0, 0, 0x08, 0, 0]),
        _ => panic!("expected a command"),
    }
    let r = nm.handle_adp_message(
        g3(AdpG3::GetResponse(GetResponse {
            status: EAdpStatus::G3_SUCCESS,
            attribute_id: 0x08,
            attribute_idx: 0,
            attribute_len: 2,
            attribute_val: vec![0x00, 0x00],
        })),
        0,
    );
    match r.as_slice() {
        [NetAction::StartTun(0)] => {}
        _ => panic!("expected the TUN device to start"),
    }
    // once started, a second start confirm asks nothing
    let r = nm.handle_adp_message(g3(AdpG3::NetworkStartResponse(NetworkStartResponse { status: EAdpStatus::G3_SUCCESS })), 0);
    assert!(r.is_empty());
    // packets from the network go to the TUN device
    let p = ipv6_packet([0, 1]);
    let r = nm.handle_adp_message(g3(AdpG3::DataEvent(DataEvent { nsdu: p.clone(), link_quality_indicator: 0 })), 0);
    match r.as_slice() {
        [NetAction::ToTun(TunPayload::Data(d))] => assert_eq!(d, &p),
        _ => panic!("expected a TUN frame"),
    }
}

#[test]
fn modem_join_starts_tun_once() {
    let s = settings();
    let mut nm = NetworkManager::new(&s, None);
    let data = g3(AdpG3::DataEvent(DataEvent { nsdu: ipv6_packet([0, 1]), link_quality_indicator: 0 }));
    assert!(nm.handle_adp_message(data, 0).is_empty());
    let join = NetworkJoinResponse { status: EAdpStatus::G3_SUCCESS, network_addr: 0x0042 };
    match nm.handle_adp_message(g3(AdpG3::NetworkJoinResponse(join)), 0).as_slice() {
        [NetAction::StartTun(0x0042)] => {}
        _ => panic!("expected the TUN device to start"),
    }
    assert!(nm.handle_adp_message(g3(AdpG3::NetworkJoinResponse(join)), 0).is_empty());
    let failed = NetworkStartResponse { status: EAdpStatus::G3_FAILED };
    assert!(nm.handle_adp_message(g3(AdpG3::NetworkStartResponse(failed)), 0).is_empty());
}

#[test]
fn buffer_indication_and_tun_packets() {
    let s = settings();
    let mut nm = NetworkManager::new(&s, None);
    match nm.handle_adp_message(g3(AdpG3::BufferEvent(BufferEvent { buffer_ready: false })), 0).as_slice() {
        [NetAction::BuffersAvailable(false)] => {}
        _ => panic!("expected the buffer state"),
    }
    assert!(!nm.buffers_available());
    let r = nm.handle_tun_payload(TunPayload::Data(vec![0x60, 1, 2]), 9);
    match r.as_slice() {
        [NetAction::SendUsi(m)] => {
            assert_eq!(m.data, vec![adp::G3_SERIAL_MSG_ADP_DATA_REQUEST, 9, 1, 0, 0, 3, 0x60, 1, 2])
        }
        _ => panic!("expected a data request"),
    }
    assert!(nm.handle_tun_payload(TunPayload::Stop, 9).is_empty());
    match nm.on_tun_payload(TunPayload::Data(vec![1])).as_slice() {
        [NetAction::SendUsi(m)] => assert_eq!(m.data.len(), 7),
        _ => panic!("expected a data request"),
    }
}

#[test]
fn set_confirm_without_pending_packet_sends_nothing() {
    let s = settings();
    let mut nm = NetworkManager::new(&s, None);
    let r = nm.handle_adp_message(
        g3(AdpG3::SetResponse(SetResponse { status: EAdpStatus::G3_SUCCESS, attribute_id: 0x080000D1, attribute_idx: 0 })),
        1,
    );
    assert!(r.is_empty());
}

#[test]
fn lbp_frames_reach_the_server() {
    let s = settings();
    let mut nm = NetworkManager::new(&s, None);
    let mut nsdu = vec![0x10, 0x00];
    nsdu.extend_from_slice(&[7; 8]);
    let msg = g3(AdpG3::LbpEvent(LbpEvent { nsdu }));
    assert!(!nm.would_panic_on(&msg));
    match nm.on_adp_message(msg).as_slice() {
        [NetAction::SendUsi(m)] => {
            assert_eq!(m.data[0], adp::G3_SERIAL_MSG_ADP_LBP_REQUEST);
            // the LBP challenge inside, after the request header and the address
            assert_eq!(m.data[17], 0xA0);
        }
        _ => panic!("expected an LBP request"),
    }
    let mut decline = vec![0xB0, 0x00];
    decline.extend_from_slice(&[7; 8]);
    assert!(nm.would_panic_on(&g3(AdpG3::LbpEvent(LbpEvent { nsdu: decline }))));
    assert!(!nm.would_panic_on(&g3(AdpG3::LbpEvent(LbpEvent { nsdu: vec![0xB0] }))));
}

use ne_g3::adp::{
    self, AdpG3, DiscoveryEvent, DiscoveryResponse, EAdpStatus, GetMacResponse,
    MsgStatusResponse, NetworkJoinResponse, NetworkStartResponse, SetMacResponse,
    TAdpPanDescriptor,
};
use ne_g3::app_config::{Network, Serial, Settings, G3};
use ne_g3::app_manager::discover_network::DiscoverNetwork;
use ne_g3::app_manager::get_params::GetParams;
use ne_g3::app_manager::idle::Idle;
use ne_g3::app_manager::join_network::JoinNetwork;
use ne_g3::app_manager::join_network_failed::JoinNetworkFailed;
use ne_g3::app_manager::ready::Ready;
use ne_g3::app_manager::set_coord_short_addr::SetCoordShortAddr;
use ne_g3::app_manager::set_params::SetParams;
use ne_g3::app_manager::stack_initialize::StackInitialize;
use ne_g3::app_manager::start_network::StartNetwork;
use ne_g3::app_manager::{Context, Message, Response, State, Step};

fn settings() -> Settings {
    Settings {
        g3: G3 {
            mode: 0,
            pan_id: 0x781D,
            band: 0,
            psk: [0xAB; 16],
            psk_2: [0; 16],
            gmk: vec![0xAF; 16],
            rekey_gmk: vec![],
            ids: vec![],
            context_information_table_0: vec![0x02, 0x00],
            context_information_table_1: vec![0x03],
            ids_arib: vec![],
            ids_cenelec_fcc: vec![],
            max_hops: 10,
            discovery_timeout_secs: 15,
        },
        serial: Serial { name: String::from("/dev/ttyUSB0"), speed: 921600 },
        network: Network {
            tun: None,
            ula_net_prefix: [0; 8],
            ula_host_prefix: [0; 6],
            local_net_prefix: [0xfe, 0x80, 0, 0, 0, 0, 0, 0],
            ula_net_prefix_len: 64,
            local_net_prefix_len: 64,
        },
    }
}

fn adp(m: AdpG3) -> Message {
    Message::Adp(adp::Message::AdpG3(m))
}

fn quiet(s: &Step, r: Response) {
    assert!(s.commands.is_empty());
    assert_eq!(s.response, r);
    assert_eq!(s.response_if_unsent, r);
}

#[test]
fn idle_waits_for_startup() {
    let mut ctx = Context::new(true, settings());
    let mut s = Idle {};
    quiet(&s.on_enter(&mut ctx), Response::Handled);
    quiet(&s.on_event(&Message::Startup, &mut ctx), Response::Transition(State::StackInitialize));
    quiet(&s.on_event(&Message::HeartBeat(std::time::SystemTime::now()), &mut ctx), Response::Handled);
}

#[test]
fn stack_initialize_sends_band() {
    let mut ctx = Context::new(true, settings());
    let mut s = StackInitialize::new();
    let step = s.on_enter(&mut ctx);
    assert_eq!(step.commands.len(), 1);
    assert_eq!(step.commands[0].data, vec![adp::G3_SERIAL_MSG_ADP_INITIALIZE, 0]);
    assert_eq!(step.response, Response::Handled);
    assert_eq!(step.response_if_unsent, Response::Transition(State::Idle));
    let status = adp(AdpG3::MsgStatusResponse(MsgStatusResponse { status: EAdpStatus::G3_SUCCESS, cmd: 0 }));
    quiet(&s.on_event(&status, &mut ctx), Response::Transition(State::SetParams));
    quiet(&s.on_event(&Message::Startup, &mut ctx), Response::Handled);
}

#[test]
fn coordinator_parameters_in_order() {
    let mut ctx = Context::new(true, settings());
    let mut s = SetParams::new();
    let first = s.on_enter(&mut ctx);
    assert_eq!(first.commands.len(), 1);
    // MAC PAN identifier first
    assert_eq!(
        first.commands[0].data,
        vec![adp::G3_SERIAL_MSG_ADP_MAC_SET_REQUEST, 0, 0, 0, 0x50, 0, 0, 2, 0x78, 0x1D]
    );
    let ev = adp(AdpG3::SetMacResponse(SetMacResponse { status: EAdpStatus::G3_SUCCESS, attribute_id: 0x50, attribute_idx: 0 }));
    let mut sent = vec![first.commands[0].data.clone()];
    loop {
        let step = s.on_event(&ev, &mut ctx);
        if step.commands.is_empty() {
            assert_eq!(step.response, Response::Transition(State::GetParams));
            break;
        }
        assert_eq!(step.response, Response::Handled);
        assert_eq!(step.response_if_unsent, Response::Transition(State::GetParams));
        sent.push(step.commands[0].data.clone());
    }
    assert_eq!(sent.len(), 12);
    // the GMK, then the security level
    assert_eq!(sent[1][..8], [adp::G3_SERIAL_MSG_ADP_MAC_SET_REQUEST, 0, 0, 0, 0x71, 0, 0, 16]);
    assert_eq!(sent[2], vec![adp::G3_SERIAL_MSG_ADP_SET_REQUEST, 0, 0, 0, 0, 0, 0, 1, 5]);
    // the second context information table has index 1
    assert_eq!(sent[8], vec![adp::G3_SERIAL_MSG_ADP_SET_REQUEST, 0, 0, 0, 7, 0, 1, 1, 3]);
    // MAC short address last
    assert_eq!(sent[11], vec![adp::G3_SERIAL_MSG_ADP_MAC_SET_REQUEST, 0, 0, 0, 0x53, 0, 0, 2, 0, 0]);
}

#[test]
fn modem_parameters() {
    let mut ctx = Context::new(false, settings());
    let mut s = SetParams::new();
    let mut n = s.on_enter(&mut ctx).commands.len();
    let ev = Message::Startup;
    loop {
        let step = s.on_event(&ev, &mut ctx);
        if step.commands.is_empty() {
            break;
        }
        n += 1;
    }
    assert_eq!(n, 8);
}

#[test]
fn get_params_keeps_extended_address() {
    let mut ctx = Context::new(false, settings());
    let mut s = GetParams::new();
    let step = s.on_enter(&mut ctx);
    assert_eq!(step.commands[0].data, vec![adp::G3_SERIAL_MSG_ADP_MAC_GET_REQUEST, 0x08, 0, 0, 0x01, 0, 0]);
    let resp = GetMacResponse {
        status: EAdpStatus::G3_SUCCESS,
        attribute_id: 0x08000001,
        attribute_idx: 0,
        attribute_len: 8,
        attribute_val: vec![1, 2, 3, 4, 5, 6, 7, 8],
    };
    quiet(&s.on_event(&adp(AdpG3::GetMacResponse(resp)), &mut ctx), Response::Transition(State::DiscoverNetwork));
    assert_eq!(ctx.extended_addr.unwrap().0, [8, 7, 6, 5, 4, 3, 2, 1]);
    let mut cctx = Context::new(true, settings());
    let other = GetMacResponse {
        status: EAdpStatus::G3_SUCCESS,
        attribute_id: 0x50,
        attribute_idx: 0,
        attribute_len: 2,
        attribute_val: vec![1, 2],
    };
    quiet(&s.on_event(&adp(AdpG3::GetMacResponse(other)), &mut cctx), Response::Transition(State::StartNetwork));
    assert!(cctx.extended_addr.is_none());
}

#[test]
fn coordinator_network_start() {
    let mut ctx = Context::new(true, settings());
    let mut s = StartNetwork::new();
    assert_eq!(
        s.on_enter(&mut ctx).commands[0].data,
        vec![adp::G3_SERIAL_MSG_ADP_NETWORK_START_REQUEST, 0x78, 0x1D]
    );
    let ok = adp(AdpG3::NetworkStartResponse(NetworkStartResponse { status: EAdpStatus::G3_SUCCESS }));
    quiet(&s.on_event(&ok, &mut ctx), Response::Transition(State::Idle));
    let failed = adp(AdpG3::NetworkStartResponse(NetworkStartResponse { status: EAdpStatus::G3_FAILED }));
    quiet(&s.on_event(&failed, &mut ctx), Response::Handled);
}

#[test]
fn modem_discovery_and_join() {
    let mut ctx = Context::new(false, settings());
    let mut d = DiscoverNetwork {};
    assert_eq!(d.on_enter(&mut ctx).commands[0].data, vec![adp::G3_SERIAL_MSG_ADP_DISCOVERY_REQUEST, 15]);
    let pd = TAdpPanDescriptor { pan_id: 0x781D, link_quality: 200, lba_address: 0x0005, rc_coord: 1 };
    quiet(&d.on_event(&adp(AdpG3::DiscoveryEvent(DiscoveryEvent { pan_descriptor: pd })), &mut ctx), Response::Handled);
    assert_eq!(ctx.pan_descriptors.len(), 1);
    quiet(
        &d.on_event(&adp(AdpG3::DiscoveryResponse(DiscoveryResponse { status: EAdpStatus::G3_SUCCESS })), &mut ctx),
        Response::Transition(State::JoinNetwork),
    );
    quiet(
        &d.on_event(&adp(AdpG3::DiscoveryResponse(DiscoveryResponse { status: EAdpStatus::G3_NO_BEACON })), &mut ctx),
        Response::Transition(State::NetworkDiscoverFailed),
    );
    let mut j = JoinNetwork::new();
    assert_eq!(
        j.on_enter(&mut ctx).commands[0].data,
        vec![adp::G3_SERIAL_MSG_ADP_NETWORK_JOIN_REQUEST, 0x78, 0x1D, 0x00, 0x05]
    );
    let ok = NetworkJoinResponse { status: EAdpStatus::G3_SUCCESS, network_addr: 3 };
    quiet(&j.on_event(&adp(AdpG3::NetworkJoinResponse(ok)), &mut ctx), Response::Transition(State::Idle));
    let timeout = NetworkJoinResponse { status: EAdpStatus::G3_TIMEOUT, network_addr: 0 };
    quiet(&j.on_event(&adp(AdpG3::NetworkJoinResponse(timeout)), &mut ctx), Response::Transition(State::JoinNetworkFailed));
    let mut empty = Context::new(false, settings());
    quiet(&j.on_enter(&mut empty), Response::Handled);
    let mut f = JoinNetworkFailed {};
    quiet(&f.on_event(&Message::HeartBeat(std::time::SystemTime::now()), &mut ctx), Response::Transition(State::JoinNetwork));
    quiet(&f.on_event(&Message::Startup, &mut ctx), Response::Handled);
}

#[test]
fn coordinator_short_address_and_ready() {
    let mut ctx = Context::new(false, settings());
    let mut s = SetCoordShortAddr {};
    assert_eq!(
        s.on_enter(&mut ctx).commands[0].data,
        vec![adp::G3_SERIAL_MSG_ADP_MAC_SET_REQUEST, 0, 0, 0, 0x53, 0, 0, 2, 0, 0]
    );
    let ev = adp(AdpG3::SetMacResponse(SetMacResponse { status: EAdpStatus::G3_SUCCESS, attribute_id: 0x53, attribute_idx: 0 }));
    quiet(&s.on_event(&ev, &mut ctx), Response::Transition(State::StackInitialize));
    let mut r = Ready::new();
    quiet(&r.on_enter(&mut ctx), Response::Handled);
    quiet(&r.on_event(&Message::HeartBeat(std::time::SystemTime::now()), &mut ctx), Response::Transition(State::StackInitialize));
    assert!(ctx.is_coordinator);
}

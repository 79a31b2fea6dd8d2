//! The IPv6 side of the node: addresses made from G3 addresses, the frames
//! exchanged with the TUN device, and what the node does with each message
//! from the modem and each packet from the TUN device.
use vstd::prelude::*;

use pnet_packet::ipv6::Ipv6Packet;
use rand::Rng;

use crate::adp;
use crate::adp::{spec_e_adp_pib_attribute_value, EAdpPibAttribute, EAdpStatus};
use crate::app_config;
use crate::app_config::be2;
use crate::lbp;
use crate::lbp::{spec_lbp_decoding, spec_lbp_type, LbpMessageType};
use crate::lbp_manager::{
    gmk_fits, spec_confirmed, spec_joining_panics, spec_msg_step, LbpManager, LbpManagerView,
    UC_MESSAGE_TIMEOUT_MS,
};
use crate::request;
use crate::request::{be2_bytes, be4_bytes, is_adp_message, spec_lbp_request};
use crate::usi::OutMessage;

verus! {

/// `pnet_packet::ipv6::Ipv6Packet::new` then `get_destination().octets()`
/// (pnet_packet 0.31): the packet view exists exactly when the buffer holds
/// the 40 byte fixed header, and the destination is read from bytes 24 to 39
/// as eight big endian segments, so its octets are those bytes.
#[verifier::external_body]
fn ipv6_destination(buf: &[u8]) -> (r: Option<[u8; 16]>)
    ensures
        r is None <==> buf@.len() < 40,
        r matches Some(d) ==> d@ == buf@.subrange(24, 40),
{
    Ipv6Packet::new(buf).map(|p| p.get_destination().octets())
}

/// `rand::thread_rng().gen::<u8>()` (rand 0.8): random, so nothing is stated
/// of the result.
#[verifier::external_body]
fn random_u8() -> u8 {
    rand::thread_rng().gen()
}

/// The IP version of a packet.
#[derive(Clone, Copy, PartialEq, Eq, Structural, Debug)]
pub enum PacketProtocol {
    IPv4,
    IPv6,
    Other(u8),
}

/// The protocol a packet's version nibble (the top four bits of its first
/// byte) names.
pub open spec fn spec_proto(b: u8) -> PacketProtocol {
    if b / 16 == 4 {
        PacketProtocol::IPv4
    } else if b / 16 == 6 {
        PacketProtocol::IPv6
    } else {
        PacketProtocol::Other((b / 16) as u8)
    }
}

/// The protocol of a packet, read from its first byte, so the packet must not
/// be empty.
pub fn infer_proto(buf: &[u8]) -> (r: PacketProtocol)
    requires
        buf@.len() >= 1,
    ensures
        r == spec_proto(buf@[0]),
{
    let b0 = buf[0];
    let v = b0 >> 4u8;
    assert(b0 >> 4u8 == b0 / 16) by (bit_vector);
    match v {
        4 => PacketProtocol::IPv4,
        6 => PacketProtocol::IPv6,
        p => PacketProtocol::Other(p),
    }
}

/// What goes to and comes from the TUN device.
#[derive(Debug)]
pub enum TunPayload {
    Data(Vec<u8>),
    Stop,
    Error(()),
}

/// Segment `k` (two bytes, big endian) of an IPv6 address.
pub open spec fn segment(a: Seq<u8>, k: int) -> u16 {
    (a[2 * k] as int * 256 + a[2 * k + 1] as int) as u16
}

fn seg(a: &[u8; 16], k: usize) -> (r: u16)
    requires
        k < 8,
    ensures
        r == segment(a@, k as int),
{
    a[2 * k] as u16 * 256 + a[2 * k + 1] as u16
}

fn be2_array(x: u16) -> (r: [u8; 2])
    ensures
        r@ == be2(x),
{
    let hi = (x >> 8u16) as u8;
    let lo = (x & 0xFF) as u8;
    assert(hi == x / 256 && lo == x % 256) by (bit_vector)
        requires
            hi == (x >> 8u16) as u8,
            lo == (x & 0xFFu16) as u8,
    ;
    let r = [hi, lo];
    assert(r@ =~= be2(x));
    r
}

/// The frame of an IPv6 packet for the TUN device: the packet itself, or,
/// where the device wants a four byte header, two zero bytes and the address
/// family big endian before it.
pub open spec fn tun_frame(b: Seq<u8>, af_header: Option<u16>) -> Seq<u8> {
    match af_header {
        Some(af) => seq![0u8, 0u8] + be2(af) + b,
        None => b,
    }
}

/// An action the node's loop performs for the node.
pub enum NetAction {
    /// Send a command to the modem.
    SendUsi(OutMessage),
    /// Bring the TUN device up for this short address.
    StartTun(u16),
    /// Hand a frame to the TUN device.
    ToTun(TunPayload),
    /// The modem can, or cannot, take data requests.
    BuffersAvailable(bool),
}

/// The node's state as plain values.
pub struct NetworkView {
    pub buffers_available: bool,
    pub tun_started: bool,
    pub current_out_msg: Option<Seq<u8>>,
    pub tun_af_header: Option<u16>,
    pub lbp: LbpManagerView,
}

/// The node: whether the modem takes data, whether the TUN device is up,
/// and, on a coordinator, the bootstrapping server.
pub struct NetworkManager {
    buffers_available: bool,
    tun_started: bool,
    current_out_msg: Option<Vec<u8>>,
    tun_af_header: Option<u16>,
    lbp_manager: LbpManager,
}

impl View for NetworkManager {
    type V = NetworkView;

    closed spec fn view(&self) -> NetworkView {
        NetworkView {
            buffers_available: self.buffers_available,
            tun_started: self.tun_started,
            current_out_msg: match self.current_out_msg {
                Some(v) => Some(v@),
                None => None,
            },
            tun_af_header: self.tun_af_header,
            lbp: self.lbp_manager@,
        }
    }
}

/// The data request that sends `pkt` with handle `h`, asking for route
/// discovery, at quality of service 0.
pub open spec fn spec_data_request_for(h: u8, pkt: Seq<u8>) -> Seq<u8> {
    seq![adp::G3_SERIAL_MSG_ADP_DATA_REQUEST, h, 1u8, 0u8] + be2_bytes(pkt.len() as int) + pkt
}

/// The ADP get request of the coordinator's short address.
pub open spec fn spec_coord_short_addr_get() -> Seq<u8> {
    seq![adp::G3_SERIAL_MSG_ADP_GET_REQUEST] + be4_bytes(
        spec_e_adp_pib_attribute_value(EAdpPibAttribute::ADP_IB_COORD_SHORT_ADDRESS),
    ) + be2_bytes(0)
}

/// Whether the modem message `msg` is one the network side cannot take: an
/// LBP frame that the bootstrapping server does not handle (any but a joining
/// one) or cannot process.
pub open spec fn spec_net_panics(old: NetworkView, msg: adp::Message) -> bool {
    match msg {
        adp::Message::AdpG3(adp::AdpG3::LbpEvent(ev)) => {
            let b = ev.nsdu@;
            &&& spec_lbp_type(b) is Some
            &&& (spec_lbp_type(b) != Some(LbpMessageType::LBP_JOINING) || spec_joining_panics(
                old.lbp,
                b.subrange(2, 10),
                b.skip(10),
            ))
        },
        _ => false,
    }
}

/// What the node does on the modem message `msg`: `old` becomes `new` and the
/// actions are `r`; `h` is the handle of a data request it sends.
pub open spec fn spec_net_step(
    old: NetworkView,
    msg: adp::Message,
    h: u8,
    new: NetworkView,
    r: Seq<NetAction>,
) -> bool {
    let unchanged = new == old && r.len() == 0;
    match msg {
        adp::Message::AdpG3(g) => match g {
            adp::AdpG3::DataEvent(e) => {
                &&& new == old
                &&& if old.tun_started && e.nsdu@.len() >= 40 {
                    r.len() == 1 && (r[0] matches NetAction::ToTun(TunPayload::Data(d)) && d@
                        == tun_frame(e.nsdu@, old.tun_af_header))
                } else {
                    r.len() == 0
                }
            },
            adp::AdpG3::GetResponse(resp) => {
                if resp.attribute_id == spec_e_adp_pib_attribute_value(
                    EAdpPibAttribute::ADP_IB_COORD_SHORT_ADDRESS,
                ) && resp.attribute_val@.len() == 2 {
                    &&& new == NetworkView { tun_started: true, ..old }
                    &&& r.len() == 1
                    &&& r[0] matches NetAction::StartTun(a)
                    &&& be2(a) == resp.attribute_val@
                } else {
                    unchanged
                }
            },
            adp::AdpG3::NetworkStartResponse(s) => {
                if s.status == EAdpStatus::G3_SUCCESS && !old.tun_started {
                    &&& new == old
                    &&& r.len() == 1
                    &&& r[0] matches NetAction::SendUsi(m)
                    &&& is_adp_message(m, spec_coord_short_addr_get())
                } else {
                    unchanged
                }
            },
            adp::AdpG3::NetworkJoinResponse(j) => {
                if j.status == EAdpStatus::G3_SUCCESS && !old.tun_started {
                    &&& new == NetworkView { tun_started: true, ..old }
                    &&& r.len() == 1
                    &&& r[0] matches NetAction::StartTun(a)
                    &&& a == j.network_addr
                } else {
                    unchanged
                }
            },
            adp::AdpG3::BufferEvent(b) => {
                &&& new == NetworkView { buffers_available: b.buffer_ready, ..old }
                &&& r.len() == 1
                &&& r[0] matches NetAction::BuffersAvailable(x)
                &&& x == b.buffer_ready
            },
            adp::AdpG3::LbpEvent(ev) => {
                if spec_lbp_type(ev.nsdu@) is None {
                    unchanged
                } else {
                    &&& new == NetworkView { lbp: new.lbp, ..old }
                    &&& exists|m: lbp::LbpMessage|
                        #![trigger spec_lbp_decoding(m, ev.nsdu@)]
                        spec_lbp_decoding(m, ev.nsdu@) && exists|
                            now: u128,
                            q: Option<request::AdpLbpRequest>,
                        |
                            #![trigger spec_msg_step(old.lbp, m, now, new.lbp, q)]
                            now <= u128::MAX - UC_MESSAGE_TIMEOUT_MS && spec_msg_step(
                                old.lbp,
                                m,
                                now,
                                new.lbp,
                                q,
                            ) && match q {
                                Some(q) => r.len() == 1 && (r[0] matches NetAction::SendUsi(o)
                                    && is_adp_message(o, spec_lbp_request(q))),
                                None => r.len() == 0,
                            }
                }
            },
            adp::AdpG3::LbpReponse(resp) => {
                &&& r.len() == 0
                &&& new == NetworkView { lbp: new.lbp, ..old }
                &&& exists|now: u128|
                    now <= u128::MAX - UC_MESSAGE_TIMEOUT_MS && new.lbp == spec_confirmed(
                        old.lbp,
                        resp,
                        now,
                    )
            },
            adp::AdpG3::SetResponse(resp) => {
                &&& new == old
                &&& if resp.attribute_id == spec_e_adp_pib_attribute_value(
                    EAdpPibAttribute::ADP_IB_MANUF_IPV6_ULA_DEST_SHORT_ADDRESS,
                ) && old.current_out_msg is Some {
                    r.len() == 1 && (r[0] matches NetAction::SendUsi(m) && is_adp_message(
                        m,
                        spec_data_request_for(h, old.current_out_msg.unwrap()),
                    ))
                } else {
                    r.len() == 0
                }
            },
            _ => unchanged,
        },
    }
}

/// What the node does with a frame `msg` from the TUN device, `h` being the
/// handle of the data request: a packet goes to the modem in a data request.
pub open spec fn spec_tun_step(msg: TunPayload, h: u8, r: Seq<NetAction>) -> bool {
    match msg {
        TunPayload::Data(pkt) => r.len() == 1 && (r[0] matches NetAction::SendUsi(m)
            && is_adp_message(m, spec_data_request_for(h, pkt@))),
        _ => r.len() == 0,
    }
}

fn one_action(a: NetAction) -> (r: Vec<NetAction>)
    ensures
        r@ == seq![a],
{
    let mut r: Vec<NetAction> = Vec::new();
    r.push(a);
    assert(r@ =~= seq![a]);
    r
}

impl NetworkManager {
    pub closed spec fn wf(&self) -> bool {
        self.lbp_manager.wf()
    }

    /// A node with the given settings, the modem taking data and no TUN
    /// device yet; `tun_af_header` is the address family the TUN device wants
    /// before each packet, if it wants one.
    pub fn new(settings: &app_config::Settings, tun_af_header: Option<u16>) -> (r: Self)
        requires
            gmk_fits(settings.g3.gmk@),
            gmk_fits(settings.g3.rekey_gmk@),
        ensures
            r.wf(),
            r@.buffers_available,
            !r@.tun_started,
            r@.current_out_msg is None,
            r@.tun_af_header == tun_af_header,
            r@.lbp == LbpManager::new_view(&settings.g3),
    {
        NetworkManager {
            buffers_available: true,
            tun_started: false,
            current_out_msg: None,
            tun_af_header,
            lbp_manager: LbpManager::new(&settings.g3),
        }
    }

    pub fn buffers_available(&self) -> (r: bool)
        ensures
            r == self@.buffers_available,
    {
        self.buffers_available
    }

    /// Whether the first 10 bits of the address are those of the link local
    /// prefix fe80::/10.
    pub fn ipv6_is_unicast_link_local(addr: &[u8; 16]) -> (r: bool)
        ensures
            r == (segment(addr@, 0) & 0xffc0 == 0xfe80),
    {
        (seg(addr, 0) & 0xffc0) == 0xfe80
    }

    /// The IPv4 address of a device: 10.1, then its short address plus one,
    /// big endian, so the short address must not be 0xFFFF.
    pub fn ipv4_from_short_addr(short_addr: u16) -> (r: [u8; 4])
        requires
            short_addr < 0xFFFF,
        ensures
            r@ == seq![10u8, 1u8] + be2((short_addr + 1) as u16),
    {
        let s = short_addr + 1;
        let b = be2_array(s);
        let r = [10u8, 1u8, b[0], b[1]];
        assert(r@ =~= seq![10u8, 1u8] + be2(s));
        r
    }

    /// The short address of a device's IPv4 address: its last two bytes,
    /// big endian, minus one, so they must not both be zero.
    pub fn short_addr_from_ipv4(ipv4: &[u8; 4]) -> (r: u16)
        requires
            ipv4@[2] != 0 || ipv4@[3] != 0,
        ensures
            r == ipv4@[2] * 256 + ipv4@[3] - 1,
    {
        let s = ipv4[2] as u16 * 256 + ipv4[3] as u16;
        s - 1
    }

    /// The IPv4 address of the device an IPv6 address names (by its short
    /// address, the last segment).
    pub fn ipv4_addr_from_ipv6(ipv6_addr: [u8; 16]) -> (r: [u8; 4])
        requires
            segment(ipv6_addr@, 7) < 0xFFFF,
        ensures
            r@ == seq![10u8, 1u8] + be2((segment(ipv6_addr@, 7) + 1) as u16),
    {
        let (pan_id, short_addr) = Self::pan_id_and_short_addr_from_ipv6(&ipv6_addr);
        Self::ipv4_from_short_addr(short_addr)
    }

    /// The PAN identifier (segment 4) and the short address (segment 7) of a
    /// G3 interface identifier.
    pub fn pan_id_and_short_addr_from_ipv6(ipv6: &[u8; 16]) -> (r: (u16, u16))
        ensures
            r == (segment(ipv6@, 4), segment(ipv6@, 7)),
    {
        (seg(ipv6, 4), seg(ipv6, 7))
    }

    pub fn short_addr_from_ipv6(ipv6: &[u8; 16]) -> (r: u16)
        ensures
            r == segment(ipv6@, 7),
    {
        seg(ipv6, 7)
    }

    /// The traffic class: the DSCP in the six most significant bits, the ECN
    /// in the two least significant bits.
    pub fn dscp_ecn_to_traffic_class(dscp: u8, ecn: u8) -> (r: u8)
        ensures
            r == (dscp << 2u8) | (ecn & 0b0000_0011u8),
    {
        dscp << 2u8 | (ecn & 0b0000_0011)
    }

    /// The DSCP (top six bits) and ECN (low two bits) of a traffic class.
    pub fn traffic_class_to_dscp_ecn(traffic_class: u8) -> (r: (u8, u8))
        ensures
            r == ((traffic_class / 4) as u8, (traffic_class % 4) as u8),
    {
        let d = traffic_class >> 2u8;
        let e = traffic_class & 0b0000_0011;
        assert(d == traffic_class / 4 && e == traffic_class % 4) by (bit_vector)
            requires
                d == traffic_class >> 2u8,
                e == traffic_class & 3u8,
        ;
        (d, e)
    }

    /// The extended address made up for a short address:
    /// 11:22:33:44:55:66, then the short address big endian.
    pub fn get_extended_address_from_short_addr(short_addr: u16) -> (r: [u8; 8])
        ensures
            r@ == seq![0x11u8, 0x22u8, 0x33u8, 0x44u8, 0x55u8, 0x66u8] + be2(short_addr),
    {
        let b = be2_array(short_addr);
        let v = [0x11, 0x22, 0x33, 0x44, 0x55, 0x66, b[0], b[1]];
        assert(v@ =~= seq![0x11u8, 0x22u8, 0x33u8, 0x44u8, 0x55u8, 0x66u8] + be2(short_addr));
        v
    }

    /// The TUN frame of an IPv6 packet from the G3 network and the short
    /// address it is sent to; `None` when it is shorter than an IPv6 header.
    pub fn ipv6_to_tun_payload_and_short_addr(buf: &Vec<u8>, af_header: Option<u16>) -> (r:
        Option<(TunPayload, u16)>)
        ensures
            r is None <==> buf@.len() < 40,
            r matches Some((p, s)) ==> s == segment(buf@.subrange(24, 40), 7) && (p matches TunPayload::Data(d)
                && d@ == tun_frame(buf@, af_header)),
    {
        let dst = ipv6_destination(buf.as_slice());
        match dst {
            Some(d) => {
                let (_, short_addr) = Self::pan_id_and_short_addr_from_ipv6(&d);
                let mut v: Vec<u8> = Vec::new();
                match af_header {
                    Some(af) => {
                        v.push(0);
                        v.push(0);
                        let b = be2_array(af);
                        v.push(b[0]);
                        v.push(b[1]);
                    },
                    None => {},
                }
                crate::lbp_functions::append_bytes(&mut v, buf.as_slice());
                assert(v@ =~= tun_frame(buf@, af_header));
                Some((TunPayload::Data(v), short_addr))
            },
            None => None,
        }
    }

    /// Whether the node would panic on the modem message `msg` (see
    /// `spec_net_panics`); callers test it first.
    pub fn would_panic_on(&self, msg: &adp::Message) -> (r: bool)
        requires
            self.wf(),
        ensures
            r == spec_net_panics(self@, *msg),
    {
        match msg {
            adp::Message::AdpG3(adp::AdpG3::LbpEvent(ev)) => {
                match lbp::adp_message_to_lbp_message(ev) {
                    Some(m) => self.lbp_manager.would_panic_on(&m),
                    None => false,
                }
            },
            _ => false,
        }
    }

    /// Handles a message from the modem (see `spec_net_step`), with `h` as the
    /// handle of a data request it sends.
    pub fn handle_adp_message(&mut self, msg: adp::Message, h: u8) -> (r: Vec<NetAction>)
        requires
            old(self).wf(),
            !spec_net_panics(old(self)@, msg),
        ensures
            final(self).wf(),
            spec_net_step(old(self)@, msg, h, final(self)@, r@),
    {
        let ghost m0 = self@;
        match msg {
            adp::Message::AdpG3(g) => match g {
                adp::AdpG3::DataEvent(g3_data) => {
                    let tun_started = self.tun_started;
                    match Self::ipv6_to_tun_payload_and_short_addr(&g3_data.nsdu, self.tun_af_header) {
                        Some((payload, _short_addr)) => {
                            if tun_started {
                                one_action(NetAction::ToTun(payload))
                            } else {
                                Vec::new()
                            }
                        },
                        None => Vec::new(),
                    }
                },
                adp::AdpG3::GetResponse(response) => {
                    proof {
                        adp::lemma_e_adp_pib_attribute_from_value(response.attribute_id);
                        adp::lemma_e_adp_pib_attribute_roundtrip(
                            EAdpPibAttribute::ADP_IB_COORD_SHORT_ADDRESS,
                        );
                    }
                    match EAdpPibAttribute::try_from_primitive(response.attribute_id) {
                        Some(EAdpPibAttribute::ADP_IB_COORD_SHORT_ADDRESS) => {
                            let v = response.attribute_val;
                            if v.len() == 2 {
                                let coord_short_addr = v[0] as u16 * 256 + v[1] as u16;
                                assert(be2(coord_short_addr) =~= v@);
                                self.tun_started = true;
                                one_action(NetAction::StartTun(coord_short_addr))
                            } else {
                                Vec::new()
                            }
                        },
                        _ => Vec::new(),
                    }
                },
                adp::AdpG3::NetworkStartResponse(network_start_response) => {
                    if network_start_response.status == EAdpStatus::G3_SUCCESS && !self.tun_started {
                        let request = request::AdpGetRequest::new(
                            EAdpPibAttribute::ADP_IB_COORD_SHORT_ADDRESS,
                            0,
                        );
                        one_action(NetAction::SendUsi(request.into()))
                    } else {
                        Vec::new()
                    }
                },
                adp::AdpG3::NetworkJoinResponse(network_join_response) => {
                    if network_join_response.status == EAdpStatus::G3_SUCCESS && !self.tun_started {
                        self.tun_started = true;
                        one_action(NetAction::StartTun(network_join_response.network_addr))
                    } else {
                        Vec::new()
                    }
                },
                adp::AdpG3::BufferEvent(event) => {
                    self.buffers_available = event.buffer_ready;
                    one_action(NetAction::BuffersAvailable(event.buffer_ready))
                },
                adp::AdpG3::LbpEvent(lbp_event) => {
                    match lbp::adp_message_to_lbp_message(&lbp_event) {
                        Some(lbp_message) => {
                            let ghost lbp0 = self.lbp_manager@;
                            let result = self.lbp_manager.process_msg(&lbp_message);
                            let ghost lbp1 = self.lbp_manager@;
                            let ghost q = result;
                            let actions = match result {
                                Some(req) => one_action(NetAction::SendUsi(req.into())),
                                None => Vec::new(),
                            };
                            proof {
                                let now = choose|now: u128|
                                    now <= u128::MAX - UC_MESSAGE_TIMEOUT_MS && spec_msg_step(
                                        lbp0,
                                        lbp_message,
                                        now,
                                        lbp1,
                                        q,
                                    );
                                assert(spec_msg_step(lbp0, lbp_message, now, lbp1, q));
                                assert(spec_lbp_decoding(lbp_message, lbp_event.nsdu@));
                            }
                            actions
                        },
                        None => Vec::new(),
                    }
                },
                adp::AdpG3::LbpReponse(lbp_response) => {
                    self.lbp_manager.process_response(&lbp_response);
                    Vec::new()
                },
                adp::AdpG3::SetResponse(resp) => {
                    proof {
                        adp::lemma_e_adp_pib_attribute_from_value(resp.attribute_id);
                        adp::lemma_e_adp_pib_attribute_roundtrip(
                            EAdpPibAttribute::ADP_IB_MANUF_IPV6_ULA_DEST_SHORT_ADDRESS,
                        );
                    }
                    match EAdpPibAttribute::try_from_primitive(resp.attribute_id) {
                        Some(EAdpPibAttribute::ADP_IB_MANUF_IPV6_ULA_DEST_SHORT_ADDRESS) => {
                            match &self.current_out_msg {
                                Some(pkt) => {
                                    let data_request = request::AdpDataRequest::new(h, pkt, true, 0);
                                    one_action(NetAction::SendUsi(data_request.into()))
                                },
                                None => Vec::new(),
                            }
                        },
                        _ => Vec::new(),
                    }
                },
                _ => Vec::new(),
            },
        }
    }

    /// Handles a message from the modem (see `spec_net_step`); a data request
    /// it sends gets a random handle.
    pub fn on_adp_message(&mut self, msg: adp::Message) -> (r: Vec<NetAction>)
        requires
            old(self).wf(),
            !spec_net_panics(old(self)@, msg),
        ensures
            final(self).wf(),
            exists|h: u8| spec_net_step(old(self)@, msg, h, final(self)@, r@),
    {
        let h = random_u8();
        self.handle_adp_message(msg, h)
    }

    /// Handles a frame from the TUN device, with `h` as the handle of the
    /// data request that carries a packet to the G3 network.
    pub fn handle_tun_payload(&mut self, msg: TunPayload, h: u8) -> (r: Vec<NetAction>)
        ensures
            final(self)@ == old(self)@,
            final(self).wf() == old(self).wf(),
            spec_tun_step(msg, h, r@),
    {
        match msg {
            TunPayload::Data(pkt) => {
                let data_request = request::AdpDataRequest::new(h, &pkt, true, 0);
                one_action(NetAction::SendUsi(data_request.into()))
            },
            _ => Vec::new(),
        }
    }

    /// Handles a frame from the TUN device; the data request gets a random
    /// handle. The node reads the TUN device only while the modem takes data.
    pub fn on_tun_payload(&mut self, msg: TunPayload) -> (r: Vec<NetAction>)
        ensures
            final(self)@ == old(self)@,
            final(self).wf() == old(self).wf(),
            exists|h: u8| spec_tun_step(msg, h, r@),
    {
        let h = random_u8();
        self.handle_tun_payload(msg, h)
    }
}


/// A G3 interface identifier reads back: the link local address made from a
/// PAN identifier and a short address (`local_ipv6_add_from_pan_id_short_addr`)
/// has the form prefix:pan:00ff:fe00:short, so that
/// `pan_id_and_short_addr_from_ipv6` gives both back; with the fe80:: prefix
/// it is a unicast link local address.
pub proof fn lemma_link_local_address(prefix: Seq<u8>, pan_id: u16, short_addr: u16)
    requires
        prefix.len() == 8,
    ensures
        ({
            let a = prefix + be2(pan_id) + seq![0x00u8, 0xffu8, 0xfeu8, 0x00u8] + be2(short_addr);
            &&& app_config::spec_addr16(a) == Some(a)
            &&& (segment(a, 4), segment(a, 7)) == (pan_id, short_addr)
            &&& segment(a, 5) == 0x00ff
            &&& segment(a, 6) == 0xfe00
            &&& (prefix[0] == 0xfe && prefix[1] == 0x80) ==> (segment(a, 0) & 0xffc0 == 0xfe80)
        }),
{
    let a = prefix + be2(pan_id) + seq![0x00u8, 0xffu8, 0xfeu8, 0x00u8] + be2(short_addr);
    assert(a[8] == (pan_id / 256) as u8 && a[9] == (pan_id % 256) as u8);
    assert(a[14] == (short_addr / 256) as u8 && a[15] == (short_addr % 256) as u8);
    let s0 = segment(a, 0);
    assert(s0 == 0xfe80 ==> s0 & 0xffc0 == 0xfe80) by (bit_vector);
}

/// The unique local address of a device by its short address ends with that
/// short address, which `short_addr_from_ipv6` gives back.
pub proof fn lemma_ula_short_address(net: Seq<u8>, host: Seq<u8>, short_addr: u16)
    requires
        net.len() + host.len() == 14,
    ensures
        ({
            let a = net + host + be2(short_addr);
            &&& app_config::spec_addr16(a) == Some(a)
            &&& segment(a, 7) == short_addr
        }),
{
    let a = net + host + be2(short_addr);
    assert(a[14] == (short_addr / 256) as u8 && a[15] == (short_addr % 256) as u8);
}

/// The short address of a device's IPv4 address (`short_addr_from_ipv4` of
/// `ipv4_from_short_addr`) is the device's own, for every short address on
/// which the latter does not overflow.
pub proof fn lemma_ipv4_roundtrip(short_addr: u16)
    requires
        short_addr < 0xFFFF,
    ensures
        ({
            let ip = seq![10u8, 1u8] + be2((short_addr + 1) as u16);
            &&& ip[2] != 0 || ip[3] != 0
            &&& ip[2] * 256 + ip[3] - 1 == short_addr
        }),
{
    let s = (short_addr + 1) as u16;
    let ip = seq![10u8, 1u8] + be2(s);
    assert(ip[2] == (s / 256) as u8 && ip[3] == (s % 256) as u8);
}

/// Splitting a traffic class made of a DSCP and an ECN gives them back, when
/// the DSCP has six bits and the ECN two.
pub proof fn lemma_traffic_class_roundtrip(dscp: u8, ecn: u8)
    requires
        dscp < 64,
        ecn < 4,
    ensures
        ({
            let tc = (dscp << 2u8) | (ecn & 0b0000_0011u8);
            ((tc / 4) as u8, (tc % 4) as u8) == (dscp, ecn)
        }),
{
    assert(dscp < 64 && ecn < 4 ==> ((dscp << 2u8) | (ecn & 3u8)) / 4 == dscp && ((dscp << 2u8)
        | (ecn & 3u8)) % 4 == ecn) by (bit_vector);
}

} // verus!
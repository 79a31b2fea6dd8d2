//! The ADP requests that the host sends to the modem, each encoded as an
//! `OutMessage` of the ADP protocol: its message code, then its fields.
use vstd::prelude::*;

use crate::adp;
use crate::adp::{
    spec_address_bytes, spec_e_adp_pib_attribute_from, spec_e_adp_pib_attribute_value,
    spec_e_adp_status_from, spec_e_mac_wrp_pib_attribute_from, spec_e_mac_wrp_pib_attribute_value,
    spec_set_mac_response, spec_set_response, spec_t_adp_band_value, EAdpPibAttribute,
    EMacWrpPibAttribute, GetMacResponse, GetResponse, SetMacResponse, SetResponse, TAddress,
    TAdpBand,
};
use crate::common;
use crate::usi::OutMessage;

verus! {

/// The bytes of a 16 bit value, big endian.
pub open spec fn be2_bytes(v: int) -> Seq<u8> {
    seq![((v / 256) % 256) as u8, (v % 256) as u8]
}

/// The bytes of a 32 bit value, big endian.
pub open spec fn be4_bytes(v: u32) -> Seq<u8> {
    seq![
        (v / 0x1000000) as u8,
        ((v / 0x10000) % 256) as u8,
        ((v / 0x100) % 256) as u8,
        (v % 256) as u8,
    ]
}

fn push_be2(v: &mut Vec<u8>, x: u16)
    ensures
        final(v)@ == old(v)@ + be2_bytes(x as int),
{
    let hi = (x >> 8u16) as u8;
    let lo = (x & 0xFF) as u8;
    assert(hi == (x / 256) % 256 && lo == x % 256) by (bit_vector)
        requires
            hi == (x >> 8u16) as u8,
            lo == (x & 0xFFu16) as u8,
    ;
    v.push(hi);
    v.push(lo);
    assert(final(v)@ =~= old(v)@ + be2_bytes(x as int));
}

fn push_be4(v: &mut Vec<u8>, x: u32)
    ensures
        final(v)@ == old(v)@ + be4_bytes(x),
{
    let b0 = ((x >> 24u32) & 0xFF) as u8;
    let b1 = ((x >> 16u32) & 0xFF) as u8;
    let b2 = ((x >> 8u32) & 0xFF) as u8;
    let b3 = (x & 0xFF) as u8;
    assert(b0 == x / 0x1000000 && b1 == (x / 0x10000) % 256 && b2 == (x / 0x100) % 256 && b3 == x
        % 256) by (bit_vector)
        requires
            b0 == ((x >> 24u32) & 0xFFu32) as u8,
            b1 == ((x >> 16u32) & 0xFFu32) as u8,
            b2 == ((x >> 8u32) & 0xFFu32) as u8,
            b3 == (x & 0xFFu32) as u8,
    ;
    v.push(b0);
    v.push(b1);
    v.push(b2);
    v.push(b3);
    assert(final(v)@ =~= old(v)@ + be4_bytes(x));
}

fn append_all(v: &mut Vec<u8>, d: &Vec<u8>)
    ensures
        final(v)@ == old(v)@ + d@,
{
    let mut i: usize = 0;
    while i < d.len()
        invariant
            i <= d.len(),
            v@ == old(v)@ + d@.take(i as int),
        decreases d.len() - i,
    {
        v.push(d[i]);
        assert(d@.take(i + 1) =~= d@.take(i as int).push(d@[i as int]));
        i = i + 1;
    }
    assert(d@.take(d.len() as int) =~= d@);
}

proof fn lemma_be2_mod(x: int)
    requires
        x >= 0,
    ensures
        be2_bytes(x % 65536) == be2_bytes(x),
{
    assert((x % 65536) / 256 % 256 == (x / 256) % 256) by (nonlinear_arith)
        requires
            x >= 0,
    ;
    assert((x % 65536) % 256 == x % 256) by (nonlinear_arith)
        requires
            x >= 0,
    ;
}

/// Whether `m` is the ADP message with content `d`.
pub open spec fn is_adp_message(m: OutMessage, d: Seq<u8>) -> bool {
    m.protocol == common::PROTOCOL_ADP_G3 && m.data@ == d
}

/// Initializes the ADP layer for a band.
#[derive(Debug)]
pub struct AdpInitializeRequest {
    pub band: u8,
}

impl AdpInitializeRequest {
    pub fn new(band: u8) -> (r: AdpInitializeRequest)
        ensures
            r.band == band,
    {
        AdpInitializeRequest { band }
    }

    pub fn from_band(band: &TAdpBand) -> (r: AdpInitializeRequest)
        ensures
            r.band == spec_t_adp_band_value(*band),
    {
        AdpInitializeRequest { band: band.into_primitive() }
    }

    pub fn into(self) -> (r: OutMessage)
        ensures
            is_adp_message(r, seq![adp::G3_SERIAL_MSG_ADP_INITIALIZE, self.band]),
    {
        let v = vec![adp::G3_SERIAL_MSG_ADP_INITIALIZE, self.band];
        assert(v@ =~= seq![adp::G3_SERIAL_MSG_ADP_INITIALIZE, self.band]);
        OutMessage::new(common::PROTOCOL_ADP_G3, &v)
    }
}

/// Scans for networks for `duration` seconds.
#[derive(Debug)]
pub struct AdpDiscoveryRequest {
    pub duration: u8,
}

impl AdpDiscoveryRequest {
    pub fn new(duration_secs: u8) -> (r: Self)
        ensures
            r.duration == duration_secs,
    {
        AdpDiscoveryRequest { duration: duration_secs }
    }

    pub fn into(self) -> (r: OutMessage)
        ensures
            is_adp_message(r, seq![adp::G3_SERIAL_MSG_ADP_DISCOVERY_REQUEST, self.duration]),
    {
        let v = vec![adp::G3_SERIAL_MSG_ADP_DISCOVERY_REQUEST, self.duration];
        assert(v@ =~= seq![adp::G3_SERIAL_MSG_ADP_DISCOVERY_REQUEST, self.duration]);
        OutMessage::new(common::PROTOCOL_ADP_G3, &v)
    }
}

/// Sends an LBP (bootstrapping) frame to a device.
#[derive(Debug)]
pub struct AdpLbpRequest {
    pub dst_addr: TAddress,
    pub data: Vec<u8>,
    pub handle: u8,
    pub max_hops: u8,
    pub discover_route: bool,
    pub quality_of_service: u8,
    pub security_enable: bool,
}

/// The content of an LBP request: code, handle, hops, route discovery flag,
/// quality of service, security flag, address length, data length (two bytes,
/// big endian, modulo 2^16), the address and the data.
pub open spec fn spec_lbp_request(r: AdpLbpRequest) -> Seq<u8> {
    let a = spec_address_bytes(r.dst_addr);
    seq![
        adp::G3_SERIAL_MSG_ADP_LBP_REQUEST,
        r.handle,
        r.max_hops,
        if r.discover_route { 1u8 } else { 0u8 },
        r.quality_of_service,
        if r.security_enable { 1u8 } else { 0u8 },
        a.len() as u8,
    ] + be2_bytes(r.data@.len() as int) + a + r.data@
}

impl AdpLbpRequest {
    pub fn new(
        dst_addr: TAddress,
        data: Vec<u8>,
        handle: u8,
        max_hops: u8,
        discover_route: bool,
        quality_of_service: u8,
        security_enable: bool,
    ) -> (r: AdpLbpRequest)
        ensures
            r.dst_addr == dst_addr,
            r.data@ == data@,
            r.handle == handle,
            r.max_hops == max_hops,
            r.discover_route == discover_route,
            r.quality_of_service == quality_of_service,
            r.security_enable == security_enable,
    {
        AdpLbpRequest {
            dst_addr,
            data,
            handle,
            max_hops,
            discover_route,
            quality_of_service,
            security_enable,
        }
    }

    pub fn into(self) -> (r: OutMessage)
        ensures
            is_adp_message(r, spec_lbp_request(self)),
    {
        let ghost s = self;
        let address_v: Vec<u8> = self.dst_addr.into();
        let ghost a = address_v@;
        let mut v = vec![
            adp::G3_SERIAL_MSG_ADP_LBP_REQUEST,
            self.handle,
            self.max_hops,
            if self.discover_route { 1u8 } else { 0u8 },
            self.quality_of_service,
            if self.security_enable { 1u8 } else { 0u8 },
        ];
        v.push(address_v.len() as u8);
        let ghost head = v@;
        assert(head =~= seq![
            adp::G3_SERIAL_MSG_ADP_LBP_REQUEST,
            s.handle,
            s.max_hops,
            if s.discover_route { 1u8 } else { 0u8 },
            s.quality_of_service,
            if s.security_enable { 1u8 } else { 0u8 },
            a.len() as u8,
        ]);
        let data_len = (self.data.len() % 65536) as u16;
        push_be2(&mut v, data_len);
        proof {
            lemma_be2_mod(self.data@.len() as int);
        }
        append_all(&mut v, &address_v);
        append_all(&mut v, &self.data);
        assert(v@ =~= head + be2_bytes(s.data@.len() as int) + a + s.data@);
        assert(v@ =~= spec_lbp_request(s));
        OutMessage::new(common::PROTOCOL_ADP_G3, &v)
    }
}

/// Starts a network with a PAN identifier (coordinator).
#[derive(Debug)]
pub struct AdpNetworkStartRequest {
    pub pan_id: u16,
}

impl AdpNetworkStartRequest {
    pub fn new(pan_id: u16) -> (r: Self)
        ensures
            r.pan_id == pan_id,
    {
        AdpNetworkStartRequest { pan_id }
    }

    pub fn into(self) -> (r: OutMessage)
        ensures
            is_adp_message(
                r,
                seq![adp::G3_SERIAL_MSG_ADP_NETWORK_START_REQUEST] + be2_bytes(self.pan_id as int),
            ),
    {
        let mut v = vec![adp::G3_SERIAL_MSG_ADP_NETWORK_START_REQUEST];
        assert(v@ =~= seq![adp::G3_SERIAL_MSG_ADP_NETWORK_START_REQUEST]);
        push_be2(&mut v, self.pan_id);
        OutMessage::new(common::PROTOCOL_ADP_G3, &v)
    }
}

/// Reads an ADP attribute.
pub struct AdpGetRequest {
    pub attribute_id: adp::EAdpPibAttribute,
    pub attribute_idx: u16,
}

impl AdpGetRequest {
    pub fn new(attribute_id: adp::EAdpPibAttribute, attribute_idx: u16) -> (r: AdpGetRequest)
        ensures
            r.attribute_id == attribute_id,
            r.attribute_idx == attribute_idx,
    {
        AdpGetRequest { attribute_id, attribute_idx }
    }

    pub fn into(self) -> (r: OutMessage)
        ensures
            is_adp_message(
                r,
                seq![adp::G3_SERIAL_MSG_ADP_GET_REQUEST] + be4_bytes(
                    spec_e_adp_pib_attribute_value(self.attribute_id),
                ) + be2_bytes(self.attribute_idx as int),
            ),
    {
        let attribute: u32 = self.attribute_id.into_primitive();
        let mut v = vec![adp::G3_SERIAL_MSG_ADP_GET_REQUEST];
        assert(v@ =~= seq![adp::G3_SERIAL_MSG_ADP_GET_REQUEST]);
        push_be4(&mut v, attribute);
        push_be2(&mut v, self.attribute_idx);
        OutMessage::new(common::PROTOCOL_ADP_G3, &v)
    }
}

/// Writes an ADP attribute.
pub struct AdpSetRequest<'a> {
    pub attribute_id: adp::EAdpPibAttribute,
    pub attribute_idx: u16,
    pub attribute_value: &'a Vec<u8>,
}

/// The content of a set request: code, attribute (four bytes), index (two
/// bytes), value length (modulo 256) and the value.
pub open spec fn spec_set_request(code: u8, id: u32, idx: u16, value: Seq<u8>) -> Seq<u8> {
    seq![code] + be4_bytes(id) + be2_bytes(idx as int) + seq![(value.len() % 256) as u8] + value
}

impl<'a> AdpSetRequest<'a> {
    pub fn new(
        attribute_id: adp::EAdpPibAttribute,
        attribute_idx: u16,
        attribute_value: &'a Vec<u8>,
    ) -> (r: AdpSetRequest<'a>)
        ensures
            r.attribute_id == attribute_id,
            r.attribute_idx == attribute_idx,
            r.attribute_value@ == attribute_value@,
    {
        AdpSetRequest { attribute_id, attribute_idx, attribute_value }
    }

    pub fn into(self) -> (r: OutMessage)
        ensures
            is_adp_message(
                r,
                spec_set_request(
                    adp::G3_SERIAL_MSG_ADP_SET_REQUEST,
                    spec_e_adp_pib_attribute_value(self.attribute_id),
                    self.attribute_idx,
                    self.attribute_value@,
                ),
            ),
    {
        let attribute: u32 = self.attribute_id.into_primitive();
        let mut v = vec![adp::G3_SERIAL_MSG_ADP_SET_REQUEST];
        assert(v@ =~= seq![adp::G3_SERIAL_MSG_ADP_SET_REQUEST]);
        push_be4(&mut v, attribute);
        push_be2(&mut v, self.attribute_idx);
        v.push((self.attribute_value.len() % 256) as u8);
        append_all(&mut v, self.attribute_value);
        assert(v@ =~= spec_set_request(
            adp::G3_SERIAL_MSG_ADP_SET_REQUEST,
            attribute,
            self.attribute_idx,
            self.attribute_value@,
        ));
        OutMessage::new(common::PROTOCOL_ADP_G3, &v)
    }
}

/// Reads a MAC attribute.
pub struct AdpMacGetRequest {
    pub attribute_id: adp::EMacWrpPibAttribute,
    pub attribute_idx: u16,
}

impl AdpMacGetRequest {
    pub fn new(attribute_id: adp::EMacWrpPibAttribute, attribute_idx: u16) -> (r: AdpMacGetRequest)
        ensures
            r.attribute_id == attribute_id,
            r.attribute_idx == attribute_idx,
    {
        AdpMacGetRequest { attribute_id, attribute_idx }
    }

    pub fn into(self) -> (r: OutMessage)
        ensures
            is_adp_message(
                r,
                seq![adp::G3_SERIAL_MSG_ADP_MAC_GET_REQUEST] + be4_bytes(
                    spec_e_mac_wrp_pib_attribute_value(self.attribute_id),
                ) + be2_bytes(self.attribute_idx as int),
            ),
    {
        let attribute: u32 = self.attribute_id.into_primitive();
        let mut v = vec![adp::G3_SERIAL_MSG_ADP_MAC_GET_REQUEST];
        assert(v@ =~= seq![adp::G3_SERIAL_MSG_ADP_MAC_GET_REQUEST]);
        push_be4(&mut v, attribute);
        push_be2(&mut v, self.attribute_idx);
        OutMessage::new(common::PROTOCOL_ADP_G3, &v)
    }
}

/// Writes a MAC attribute.
pub struct AdpMacSetRequest<'a> {
    pub attribute_id: adp::EMacWrpPibAttribute,
    pub attribute_idx: u16,
    pub attribute_value: &'a Vec<u8>,
}

impl<'a> AdpMacSetRequest<'a> {
    pub fn new(
        attribute_id: adp::EMacWrpPibAttribute,
        attribute_idx: u16,
        attribute_value: &'a Vec<u8>,
    ) -> (r: AdpMacSetRequest<'a>)
        ensures
            r.attribute_id == attribute_id,
            r.attribute_idx == attribute_idx,
            r.attribute_value@ == attribute_value@,
    {
        AdpMacSetRequest { attribute_id, attribute_idx, attribute_value }
    }

    pub fn into(self) -> (r: OutMessage)
        ensures
            is_adp_message(
                r,
                spec_set_request(
                    adp::G3_SERIAL_MSG_ADP_MAC_SET_REQUEST,
                    spec_e_mac_wrp_pib_attribute_value(self.attribute_id),
                    self.attribute_idx,
                    self.attribute_value@,
                ),
            ),
    {
        let attribute: u32 = self.attribute_id.into_primitive();
        let mut v = vec![adp::G3_SERIAL_MSG_ADP_MAC_SET_REQUEST];
        assert(v@ =~= seq![adp::G3_SERIAL_MSG_ADP_MAC_SET_REQUEST]);
        push_be4(&mut v, attribute);
        push_be2(&mut v, self.attribute_idx);
        v.push((self.attribute_value.len() % 256) as u8);
        append_all(&mut v, self.attribute_value);
        assert(v@ =~= spec_set_request(
            adp::G3_SERIAL_MSG_ADP_MAC_SET_REQUEST,
            attribute,
            self.attribute_idx,
            self.attribute_value@,
        ));
        OutMessage::new(common::PROTOCOL_ADP_G3, &v)
    }
}

/// Sends an IPv6 packet over the G3 network.
pub struct AdpDataRequest {
    pub handle: u8,
    pub data: Vec<u8>,
    pub discover_route: bool,
    pub quality_of_service: u8,
}

/// The content of a data request: code, handle, route discovery flag, quality
/// of service, data length (two bytes, big endian, modulo 2^16) and the data.
pub open spec fn spec_data_request(r: AdpDataRequest) -> Seq<u8> {
    seq![
        adp::G3_SERIAL_MSG_ADP_DATA_REQUEST,
        r.handle,
        if r.discover_route { 1u8 } else { 0u8 },
        r.quality_of_service,
    ] + be2_bytes(r.data@.len() as int) + r.data@
}

impl AdpDataRequest {
    pub fn new(handle: u8, data: &Vec<u8>, discover_route: bool, quality_of_service: u8) -> (r:
        AdpDataRequest)
        ensures
            r.handle == handle,
            r.data@ == data@,
            r.discover_route == discover_route,
            r.quality_of_service == quality_of_service,
    {
        AdpDataRequest { handle, data: data.clone(), discover_route, quality_of_service }
    }

    pub fn into(self) -> (r: OutMessage)
        ensures
            is_adp_message(r, spec_data_request(self)),
    {
        let ghost s = self;
        let n = self.data.len();
        let hi = ((n >> 8usize) & 0xFF) as u8;
        let lo = (n & 0xFF) as u8;
        assert(hi == (n / 256) % 256 && lo == n % 256) by (bit_vector)
            requires
                hi == ((n >> 8usize) & 0xFFusize) as u8,
                lo == (n & 0xFFusize) as u8,
        ;
        let mut v = vec![
            adp::G3_SERIAL_MSG_ADP_DATA_REQUEST,
            self.handle,
            if self.discover_route { 1u8 } else { 0u8 },
            self.quality_of_service,
            hi,
            lo,
        ];
        append_all(&mut v, &self.data);
        assert(v@ =~= spec_data_request(s));
        OutMessage::new(common::PROTOCOL_ADP_G3, &v)
    }
}

/// Joins the network `pan_id` through the LBA `lba_address` (device).
pub struct AdpJoinNetworkRequest {
    pub pan_id: u16,
    pub lba_address: u16,
}

impl AdpJoinNetworkRequest {
    pub fn into(self) -> (r: OutMessage)
        ensures
            is_adp_message(
                r,
                seq![adp::G3_SERIAL_MSG_ADP_NETWORK_JOIN_REQUEST] + be2_bytes(self.pan_id as int)
                    + be2_bytes(self.lba_address as int),
            ),
    {
        let mut v = vec![adp::G3_SERIAL_MSG_ADP_NETWORK_JOIN_REQUEST];
        assert(v@ =~= seq![adp::G3_SERIAL_MSG_ADP_NETWORK_JOIN_REQUEST]);
        push_be2(&mut v, self.pan_id);
        push_be2(&mut v, self.lba_address);
        OutMessage::new(common::PROTOCOL_ADP_G3, &v)
    }
}

/// Reading the four bytes of `be4_bytes(v)` big endian gives `v` back.
proof fn lemma_be4_bytes_value(v: u32)
    ensures
        adp::be4(be4_bytes(v)[0], be4_bytes(v)[1], be4_bytes(v)[2], be4_bytes(v)[3]) == v,
{
    let x = v as int;
    assert(x / 0x1000000 < 256);
    assert((x / 0x1000000) * 0x1000000 + ((x / 0x10000) % 256) * 0x10000 + ((x / 0x100) % 256)
        * 0x100 + x % 256 == x) by (nonlinear_arith)
        requires
            0 <= x,
    ;
}

/// Reading the two bytes of `be2_bytes(v)` big endian gives `v` back.
proof fn lemma_be2_bytes_value(v: u16)
    ensures
        adp::be2(be2_bytes(v as int)[0], be2_bytes(v as int)[1]) == v,
{
}

/// A set confirm that carries the attribute identifier and index of a set
/// request (ADP or MAC), in the place and byte order the request has them,
/// decodes back to that identifier and index, with the confirm's status.
pub proof fn lemma_set_confirm_echoes_request(
    code: u8,
    status: u8,
    id: u32,
    idx: u16,
    value: Seq<u8>,
)
    requires
        spec_e_adp_status_from(status) is Some,
    ensures
        ({
            let req = spec_set_request(code, id, idx, value);
            let conf = seq![adp::G3_SERIAL_MSG_ADP_SET_CONFIRM, status] + req.subrange(1, 7);
            &&& spec_set_response(conf) == Some(
                SetResponse {
                    status: spec_e_adp_status_from(status).unwrap(),
                    attribute_id: id,
                    attribute_idx: idx,
                },
            )
            &&& spec_set_mac_response(conf) == Some(
                SetMacResponse {
                    status: spec_e_adp_status_from(status).unwrap(),
                    attribute_id: id,
                    attribute_idx: idx,
                },
            )
        }),
{
    let req = spec_set_request(code, id, idx, value);
    let conf = seq![adp::G3_SERIAL_MSG_ADP_SET_CONFIRM, status] + req.subrange(1, 7);
    lemma_be4_bytes_value(id);
    lemma_be2_bytes_value(idx);
    assert(conf.len() == 8);
    assert(conf[2] == be4_bytes(id)[0] && conf[3] == be4_bytes(id)[1] && conf[4] == be4_bytes(
        id,
    )[2] && conf[5] == be4_bytes(id)[3]);
    assert(conf[6] == be2_bytes(idx as int)[0] && conf[7] == be2_bytes(idx as int)[1]);
}

/// A MAC get confirm that carries the attribute identifier and index of the
/// MAC get request for `attr`, in the place and byte order the request has
/// them, decodes to that identifier and index, and the identifier names
/// `attr` again.
pub proof fn lemma_mac_get_confirm_echoes_request(
    r: GetMacResponse,
    b: Seq<u8>,
    attr: EMacWrpPibAttribute,
    idx: u16,
)
    requires
        r.is_decoding_of(b),
        b.subrange(2, 8) == (seq![adp::G3_SERIAL_MSG_ADP_MAC_GET_REQUEST] + be4_bytes(
            spec_e_mac_wrp_pib_attribute_value(attr),
        ) + be2_bytes(idx as int)).subrange(1, 7),
    ensures
        r.attribute_id == spec_e_mac_wrp_pib_attribute_value(attr),
        r.attribute_idx == idx,
        spec_e_mac_wrp_pib_attribute_from(r.attribute_id) == Some(attr),
{
    let v = spec_e_mac_wrp_pib_attribute_value(attr);
    lemma_be4_bytes_value(v);
    lemma_be2_bytes_value(idx);
    assert(b[2] == b.subrange(2, 8)[0] && b[3] == b.subrange(2, 8)[1] && b[4] == b.subrange(2, 8)[2]
        && b[5] == b.subrange(2, 8)[3] && b[6] == b.subrange(2, 8)[4] && b[7] == b.subrange(2, 8)[5]);
    adp::lemma_e_mac_wrp_pib_attribute_roundtrip(attr);
}

/// An ADP get confirm that carries the attribute identifier and index of the
/// ADP get request for `attr`, in the place and byte order the request has
/// them, decodes to that identifier and index, and the identifier names
/// `attr` again.
pub proof fn lemma_get_confirm_echoes_request(
    r: GetResponse,
    b: Seq<u8>,
    attr: EAdpPibAttribute,
    idx: u16,
)
    requires
        r.is_decoding_of(b),
        b.subrange(2, 8) == (seq![adp::G3_SERIAL_MSG_ADP_GET_REQUEST] + be4_bytes(
            spec_e_adp_pib_attribute_value(attr),
        ) + be2_bytes(idx as int)).subrange(1, 7),
    ensures
        r.attribute_id == spec_e_adp_pib_attribute_value(attr),
        r.attribute_idx == idx,
        spec_e_adp_pib_attribute_from(r.attribute_id) == Some(attr),
{
    let v = spec_e_adp_pib_attribute_value(attr);
    lemma_be4_bytes_value(v);
    lemma_be2_bytes_value(idx);
    assert(b[2] == b.subrange(2, 8)[0] && b[3] == b.subrange(2, 8)[1] && b[4] == b.subrange(2, 8)[2]
        && b[5] == b.subrange(2, 8)[3] && b[6] == b.subrange(2, 8)[4] && b[7] == b.subrange(2, 8)[5]);
    adp::lemma_e_adp_pib_attribute_roundtrip(attr);
}

} // verus!

//! Settings of the coordinator and modem, and the IPv6 addresses that the
//! network prefixes and G3 addresses make.
use vstd::prelude::*;

use crate::adp::TExtendedAddress;

verus! {

/// Whether the program runs as the PAN coordinator or as a modem (device).
#[derive(Copy, Clone, PartialEq, Eq, Structural, Debug)]
pub enum Mode {
    Coordinator,
    Modem,
}

/// The number of a mode: the coordinator 0, the modem 1.
pub open spec fn spec_mode_value(m: Mode) -> u8 {
    match m {
        Mode::Coordinator => 0u8,
        Mode::Modem => 1u8,
    }
}

impl Mode {
    pub fn into_primitive(self) -> (r: u8)
        ensures
            r == spec_mode_value(self),
    {
        match self {
            Mode::Coordinator => 0,
            Mode::Modem => 1,
        }
    }

    /// The mode of a number; `None` for any number but 0 and 1.
    pub fn try_from_primitive(v: u8) -> (r: Option<Mode>)
        ensures
            r matches Some(m) ==> spec_mode_value(m) == v,
            r is None <==> v > 1,
    {
        if v == 0 {
            Some(Mode::Coordinator)
        } else if v == 1 {
            Some(Mode::Modem)
        } else {
            None
        }
    }
}

/// The layer a G3 parameter belongs to.
#[derive(PartialEq, Eq, Structural, Debug, Clone, Copy)]
pub enum G3ParamType {
    Adp,
    Mac,
}

/// A G3 parameter: its layer, attribute, index and value.
pub type G3Param = (G3ParamType, u32, u16, Vec<u8>);

/// The G3 part of the settings.
#[derive(Debug, Clone)]
pub struct G3 {
    pub mode: u8,
    pub pan_id: u16,
    pub band: u8,
    pub psk: [u8; 16],
    pub psk_2: [u8; 16],
    pub gmk: Vec<u8>,
    pub rekey_gmk: Vec<u8>,
    pub ids: Vec<u8>,
    pub context_information_table_0: Vec<u8>,
    pub context_information_table_1: Vec<u8>,
    pub ids_arib: Vec<u8>,
    pub ids_cenelec_fcc: Vec<u8>,
    pub max_hops: u8,
    /// How long a modem scans for networks, in seconds.
    pub discovery_timeout_secs: u8,
}

/// The serial port that the G3 modem hangs on.
#[derive(Debug, Clone)]
pub struct Serial {
    pub name: String,
    pub speed: u32,
}

/// The IPv6 side: the TUN device and the prefixes.
#[derive(Debug, Clone)]
pub struct Network {
    pub tun: Option<String>,
    pub ula_net_prefix: [u8; 8],
    pub ula_host_prefix: [u8; 6],
    pub local_net_prefix: [u8; 8],
    pub ula_net_prefix_len: u8,
    pub local_net_prefix_len: u8,
}

/// All the settings.
#[derive(Debug, Clone)]
pub struct Settings {
    pub g3: G3,
    pub serial: Serial,
    pub network: Network,
}

/// The big endian bytes of a 16 bit value.
pub open spec fn be2(v: u16) -> Seq<u8> {
    seq![(v / 256) as u8, (v % 256) as u8]
}

fn push_u16_be(v: &mut Vec<u8>, x: u16)
    ensures
        final(v)@ == old(v)@ + be2(x),
{
    let hi = (x >> 8u16) as u8;
    let lo = (x & 0xFF) as u8;
    assert(hi == x / 256 && lo == x % 256) by (bit_vector)
        requires
            hi == (x >> 8u16) as u8,
            lo == (x & 0xFFu16) as u8,
    ;
    v.push(hi);
    v.push(lo);
    assert(v@ =~= old(v)@ + be2(x));
}

fn push_all(v: &mut Vec<u8>, d: &[u8])
    ensures
        final(v)@ == old(v)@ + d@,
{
    let mut i: usize = 0;
    while i < d.len()
        invariant
            i <= d.len(),
            v@ == old(v)@ + d@.take(i as int),
        decreases d.len() - i,
    {
        v.push(d[i]);
        assert(d@.take(i + 1) =~= d@.take(i as int).push(d@[i as int]));
        i = i + 1;
    }
    assert(d@.take(d.len() as int) =~= d@);
}

/// The sixteen bytes of `a`, when it has exactly sixteen; else `None`.
pub open spec fn spec_addr16(a: Seq<u8>) -> Option<Seq<u8>> {
    if a.len() == 16 {
        Some(a)
    } else {
        None
    }
}

fn to_addr16(a: &Vec<u8>) -> (r: Option<[u8; 16]>)
    ensures
        r matches Some(x) ==> spec_addr16(a@) == Some(x@),
        r is None ==> spec_addr16(a@) is None,
{
    if a.len() == 16 {
        let v: [u8; 16] = [
            a[0], a[1], a[2], a[3], a[4], a[5], a[6], a[7],
            a[8], a[9], a[10], a[11], a[12], a[13], a[14], a[15],
        ];
        assert(v@ =~= a@);
        Some(v)
    } else {
        None
    }
}

/// The unique local address of a device: the network prefix, then its
/// extended address; `None` unless that makes sixteen bytes. The PAN
/// identifier takes no part.
pub fn ula_ipv6_addr_from_pan_id_extended_addr(
    ula_net_prefix: &[u8],
    pan_id: u16,
    extended_addr: &TExtendedAddress,
) -> (r: Option<[u8; 16]>)
    ensures
        r matches Some(x) ==> spec_addr16(ula_net_prefix@ + extended_addr.0@) == Some(x@),
        r is None <==> ula_net_prefix@.len() != 8,
{
    let mut addr: Vec<u8> = Vec::new();
    push_all(&mut addr, ula_net_prefix);
    push_all(&mut addr, &extended_addr.0);
    to_addr16(&addr)
}

/// The unique local address of a device by its short address: the network
/// prefix, the host prefix, then the short address big endian; `None` unless
/// that makes sixteen bytes. The PAN identifier takes no part.
pub fn ula_ipv6_addr_from_pan_id_short_addr(
    ula_net_prefix: &[u8],
    ula_host_prefix: &[u8],
    pan_id: u16,
    short_addr: u16,
) -> (r: Option<[u8; 16]>)
    ensures
        r matches Some(x) ==> spec_addr16(ula_net_prefix@ + ula_host_prefix@ + be2(short_addr))
            == Some(x@),
        r is None <==> ula_net_prefix@.len() + ula_host_prefix@.len() != 14,
{
    let mut addr: Vec<u8> = Vec::new();
    push_all(&mut addr, ula_net_prefix);
    push_all(&mut addr, ula_host_prefix);
    push_u16_be(&mut addr, short_addr);
    to_addr16(&addr)
}

/// The link local address of a device: the local prefix, the PAN identifier
/// big endian, 00:ff:fe:00, then the short address big endian; `None` unless
/// that makes sixteen bytes.
pub fn local_ipv6_add_from_pan_id_short_addr(
    local_net_prefix: &[u8],
    pan_id: u16,
    short_addr: u16,
) -> (r: Option<[u8; 16]>)
    ensures
        r matches Some(x) ==> spec_addr16(
            local_net_prefix@ + be2(pan_id) + seq![0x00u8, 0xffu8, 0xfeu8, 0x00u8] + be2(
                short_addr,
            ),
        ) == Some(x@),
        r is None <==> local_net_prefix@.len() != 8,
{
    let mut addr: Vec<u8> = Vec::new();
    push_all(&mut addr, local_net_prefix);
    push_u16_be(&mut addr, pan_id);
    let mid: [u8; 4] = [0x00, 0xff, 0xfe, 0x00];
    push_all(&mut addr, &mid);
    assert(mid@ =~= seq![0x00u8, 0xffu8, 0xfeu8, 0x00u8]);
    push_u16_be(&mut addr, short_addr);
    to_addr16(&addr)
}

} // verus!

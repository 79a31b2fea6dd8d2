//! The ADP (adaptation layer) messages of the G3 serial interface: the
//! command codes, the attribute identifiers, the status codes and the
//! decoding of confirms and indications received from the modem.
use vstd::prelude::*;

use crate::usi;

verus! {

pub const G3_SERIAL_MSG_STATUS: u8 = 0;

/* COORDINATOR ACCESS */
pub const G3_SERIAL_MSG_COORD_REQUEST_MESSAGES_BEGIN: u8 = 1;

pub const G3_SERIAL_MSG_COORD_INITIALIZE: u8 = (G3_SERIAL_MSG_COORD_REQUEST_MESSAGES_BEGIN);
pub const G3_SERIAL_MSG_COORD_SET_REQUEST: u8 = (G3_SERIAL_MSG_COORD_REQUEST_MESSAGES_BEGIN + 1);
pub const G3_SERIAL_MSG_COORD_GET_REQUEST: u8 = (G3_SERIAL_MSG_COORD_REQUEST_MESSAGES_BEGIN + 2);
pub const G3_SERIAL_MSG_COORD_KICK_REQUEST: u8 = (G3_SERIAL_MSG_COORD_REQUEST_MESSAGES_BEGIN + 3);
pub const G3_SERIAL_MSG_COORD_REKEYING_REQUEST: u8 =
    (G3_SERIAL_MSG_COORD_REQUEST_MESSAGES_BEGIN + 4);

pub const G3_SERIAL_MSG_COORD_CONF_IND_MESSAGES_BEGIN: u8 =
    (G3_SERIAL_MSG_COORD_REQUEST_MESSAGES_BEGIN + 5);
pub const G3_SERIAL_MSG_COORD_SET_CONFIRM: u8 = (G3_SERIAL_MSG_COORD_CONF_IND_MESSAGES_BEGIN);
pub const G3_SERIAL_MSG_COORD_GET_CONFIRM: u8 = (G3_SERIAL_MSG_COORD_CONF_IND_MESSAGES_BEGIN + 1);
pub const G3_SERIAL_MSG_COORD_JOIN_INDICATION: u8 =
    (G3_SERIAL_MSG_COORD_CONF_IND_MESSAGES_BEGIN + 2);
pub const G3_SERIAL_MSG_COORD_LEAVE_INDICATION: u8 =
    (G3_SERIAL_MSG_COORD_CONF_IND_MESSAGES_BEGIN + 3);

pub const G3_SERIAL_MSG_COORD_REQUEST_MESSAGES_END: u8 = (G3_SERIAL_MSG_COORD_LEAVE_INDICATION);

/* ADP ACCESS */
pub const G3_SERIAL_MSG_ADP_REQUEST_MESSAGES_BEGIN: u8 = 10;
pub const G3_SERIAL_MSG_ADP_INITIALIZE: u8 = (G3_SERIAL_MSG_ADP_REQUEST_MESSAGES_BEGIN);
pub const G3_SERIAL_MSG_ADP_DATA_REQUEST: u8 = (G3_SERIAL_MSG_ADP_REQUEST_MESSAGES_BEGIN + 1);
pub const G3_SERIAL_MSG_ADP_DISCOVERY_REQUEST: u8 = (G3_SERIAL_MSG_ADP_REQUEST_MESSAGES_BEGIN + 2);
pub const G3_SERIAL_MSG_ADP_NETWORK_START_REQUEST: u8 =
    (G3_SERIAL_MSG_ADP_REQUEST_MESSAGES_BEGIN + 3);
pub const G3_SERIAL_MSG_ADP_NETWORK_JOIN_REQUEST: u8 =
    (G3_SERIAL_MSG_ADP_REQUEST_MESSAGES_BEGIN + 4);
pub const G3_SERIAL_MSG_ADP_NETWORK_LEAVE_REQUEST: u8 =
    (G3_SERIAL_MSG_ADP_REQUEST_MESSAGES_BEGIN + 5);
pub const G3_SERIAL_MSG_ADP_RESET_REQUEST: u8 = (G3_SERIAL_MSG_ADP_REQUEST_MESSAGES_BEGIN + 6);
pub const G3_SERIAL_MSG_ADP_SET_REQUEST: u8 = (G3_SERIAL_MSG_ADP_REQUEST_MESSAGES_BEGIN + 7);
pub const G3_SERIAL_MSG_ADP_GET_REQUEST: u8 = (G3_SERIAL_MSG_ADP_REQUEST_MESSAGES_BEGIN + 8);
pub const G3_SERIAL_MSG_ADP_LBP_REQUEST: u8 = (G3_SERIAL_MSG_ADP_REQUEST_MESSAGES_BEGIN + 9);
pub const G3_SERIAL_MSG_ADP_ROUTE_DISCOVERY_REQUEST: u8 =
    (G3_SERIAL_MSG_ADP_REQUEST_MESSAGES_BEGIN + 10);
pub const G3_SERIAL_MSG_ADP_PATH_DISCOVERY_REQUEST: u8 =
    (G3_SERIAL_MSG_ADP_REQUEST_MESSAGES_BEGIN + 11);
pub const G3_SERIAL_MSG_ADP_MAC_SET_REQUEST: u8 = (G3_SERIAL_MSG_ADP_REQUEST_MESSAGES_BEGIN + 12);
pub const G3_SERIAL_MSG_ADP_MAC_GET_REQUEST: u8 = (G3_SERIAL_MSG_ADP_REQUEST_MESSAGES_BEGIN + 13);
pub const G3_SERIAL_MSG_ADP_REQUEST_MESSAGES_END: u8 = (G3_SERIAL_MSG_ADP_MAC_GET_REQUEST);

pub const G3_SERIAL_MSG_ADP_CONF_IND_MESSAGES_BEGIN: u8 = 30;
pub const G3_SERIAL_MSG_ADP_DATA_CONFIRM: u8 = (G3_SERIAL_MSG_ADP_CONF_IND_MESSAGES_BEGIN);
pub const G3_SERIAL_MSG_ADP_DATA_INDICATION: u8 = (G3_SERIAL_MSG_ADP_CONF_IND_MESSAGES_BEGIN + 1);
pub const G3_SERIAL_MSG_ADP_NETWORK_STATUS_INDICATION: u8 =
    (G3_SERIAL_MSG_ADP_CONF_IND_MESSAGES_BEGIN + 2);
pub const G3_SERIAL_MSG_ADP_DISCOVERY_CONFIRM: u8 = (G3_SERIAL_MSG_ADP_CONF_IND_MESSAGES_BEGIN + 3);
pub const G3_SERIAL_MSG_ADP_NETWORK_START_CONFIRM: u8 =
    (G3_SERIAL_MSG_ADP_CONF_IND_MESSAGES_BEGIN + 4);
pub const G3_SERIAL_MSG_ADP_NETWORK_JOIN_CONFIRM: u8 =
    (G3_SERIAL_MSG_ADP_CONF_IND_MESSAGES_BEGIN + 5);
pub const G3_SERIAL_MSG_ADP_NETWORK_LEAVE_CONFIRM: u8 =
    (G3_SERIAL_MSG_ADP_CONF_IND_MESSAGES_BEGIN + 6);
pub const G3_SERIAL_MSG_ADP_NETWORK_LEAVE_INDICATION: u8 =
    (G3_SERIAL_MSG_ADP_CONF_IND_MESSAGES_BEGIN + 7);
pub const G3_SERIAL_MSG_ADP_RESET_CONFIRM: u8 = (G3_SERIAL_MSG_ADP_CONF_IND_MESSAGES_BEGIN + 8);
pub const G3_SERIAL_MSG_ADP_SET_CONFIRM: u8 = (G3_SERIAL_MSG_ADP_CONF_IND_MESSAGES_BEGIN + 9);
pub const G3_SERIAL_MSG_ADP_GET_CONFIRM: u8 = (G3_SERIAL_MSG_ADP_CONF_IND_MESSAGES_BEGIN + 10);
pub const G3_SERIAL_MSG_ADP_LBP_CONFIRM: u8 = (G3_SERIAL_MSG_ADP_CONF_IND_MESSAGES_BEGIN + 11);
pub const G3_SERIAL_MSG_ADP_LBP_INDICATION: u8 = (G3_SERIAL_MSG_ADP_CONF_IND_MESSAGES_BEGIN + 12);
pub const G3_SERIAL_MSG_ADP_ROUTE_DISCOVERY_CONFIRM: u8 =
    (G3_SERIAL_MSG_ADP_CONF_IND_MESSAGES_BEGIN + 13);
pub const G3_SERIAL_MSG_ADP_PATH_DISCOVERY_CONFIRM: u8 =
    (G3_SERIAL_MSG_ADP_CONF_IND_MESSAGES_BEGIN + 14);
pub const G3_SERIAL_MSG_ADP_MAC_SET_CONFIRM: u8 = (G3_SERIAL_MSG_ADP_CONF_IND_MESSAGES_BEGIN + 15);
pub const G3_SERIAL_MSG_ADP_MAC_GET_CONFIRM: u8 = (G3_SERIAL_MSG_ADP_CONF_IND_MESSAGES_BEGIN + 16);
pub const G3_SERIAL_MSG_ADP_BUFFER_INDICATION: u8 =
    (G3_SERIAL_MSG_ADP_CONF_IND_MESSAGES_BEGIN + 17);
pub const G3_SERIAL_MSG_ADP_DISCOVERY_INDICATION: u8 =
    (G3_SERIAL_MSG_ADP_CONF_IND_MESSAGES_BEGIN + 18);
pub const G3_SERIAL_MSG_ADP_PREQ_INDICATION: u8 = (G3_SERIAL_MSG_ADP_CONF_IND_MESSAGES_BEGIN + 19);
pub const G3_SERIAL_MSG_ADP_UPD_NON_VOLATILE_DATA_INDICATION: u8 =
    (G3_SERIAL_MSG_ADP_CONF_IND_MESSAGES_BEGIN + 20);
pub const G3_SERIAL_MSG_ADP_ROUTE_NOT_FOUND_INDICATION: u8 =
    (G3_SERIAL_MSG_ADP_CONF_IND_MESSAGES_BEGIN + 21);

/* MAC ACCESS */
pub const G3_SERIAL_MSG_MAC_REQUEST_MESSAGES_BEGIN: u8 = 50;
pub const G3_SERIAL_MSG_MAC_INITIALIZE: u8 = (G3_SERIAL_MSG_MAC_REQUEST_MESSAGES_BEGIN);
pub const G3_SERIAL_MSG_MAC_DATA_REQUEST: u8 = (G3_SERIAL_MSG_MAC_REQUEST_MESSAGES_BEGIN + 1);
pub const G3_SERIAL_MSG_MAC_GET_REQUEST: u8 = (G3_SERIAL_MSG_MAC_REQUEST_MESSAGES_BEGIN + 2);
pub const G3_SERIAL_MSG_MAC_SET_REQUEST: u8 = (G3_SERIAL_MSG_MAC_REQUEST_MESSAGES_BEGIN + 3);
pub const G3_SERIAL_MSG_MAC_RESET_REQUEST: u8 = (G3_SERIAL_MSG_MAC_REQUEST_MESSAGES_BEGIN + 4);
pub const G3_SERIAL_MSG_MAC_SCAN_REQUEST: u8 = (G3_SERIAL_MSG_MAC_REQUEST_MESSAGES_BEGIN + 5);
pub const G3_SERIAL_MSG_MAC_START_REQUEST: u8 = (G3_SERIAL_MSG_MAC_REQUEST_MESSAGES_BEGIN + 6);
pub const G3_SERIAL_MSG_MAC_REQUEST_MESSAGES_END: u8 = (G3_SERIAL_MSG_MAC_START_REQUEST);

pub const G3_SERIAL_MSG_MAC_CONF_IND_MESSAGES_BEGIN: u8 = 60;
pub const G3_SERIAL_MSG_MAC_DATA_CONFIRM: u8 = (G3_SERIAL_MSG_MAC_CONF_IND_MESSAGES_BEGIN);
pub const G3_SERIAL_MSG_MAC_DATA_INDICATION: u8 = (G3_SERIAL_MSG_MAC_CONF_IND_MESSAGES_BEGIN + 1);
pub const G3_SERIAL_MSG_MAC_GET_CONFIRM: u8 = (G3_SERIAL_MSG_MAC_CONF_IND_MESSAGES_BEGIN + 2);
pub const G3_SERIAL_MSG_MAC_SET_CONFIRM: u8 = (G3_SERIAL_MSG_MAC_CONF_IND_MESSAGES_BEGIN + 3);
pub const G3_SERIAL_MSG_MAC_RESET_CONFIRM: u8 = (G3_SERIAL_MSG_MAC_CONF_IND_MESSAGES_BEGIN + 4);
pub const G3_SERIAL_MSG_MAC_SCAN_CONFIRM: u8 = (G3_SERIAL_MSG_MAC_CONF_IND_MESSAGES_BEGIN + 5);
pub const G3_SERIAL_MSG_MAC_BEACON_NOTIFY: u8 = (G3_SERIAL_MSG_MAC_CONF_IND_MESSAGES_BEGIN + 6);
pub const G3_SERIAL_MSG_MAC_START_CONFIRM: u8 = (G3_SERIAL_MSG_MAC_CONF_IND_MESSAGES_BEGIN + 7);
pub const G3_SERIAL_MSG_MAC_COMM_STATUS_INDICATION: u8 =
    (G3_SERIAL_MSG_MAC_CONF_IND_MESSAGES_BEGIN + 8);
pub const G3_SERIAL_MSG_MAC_SNIFFER_INDICATION: u8 =
    (G3_SERIAL_MSG_MAC_CONF_IND_MESSAGES_BEGIN + 9);

pub const ADP_ADDRESS_16BITS: i32 = 2;
pub const ADP_ADDRESS_64BITS: i32 = 8;

/// Modulations of the G3 MAC layer.
#[derive(Clone, Copy, Debug, PartialEq, Eq, Structural)]
pub enum EAdpMac_Modulation {
    MOD_ROBO,
    MOD_BPSK,
    MOD_DBPSK,
    MOD_QPSK,
    MOD_DQPSK,
    MOD_8PSK,
    MOD_D8PSK,
    MOD_16QAM,
    MOD_UNKNOWN,
}

/// An EUI-64 (extended) address.
#[derive(Debug, Copy, Clone, PartialEq, Eq, Hash)]
pub struct TExtendedAddress(pub [u8; 8]);

impl TExtendedAddress {
    /// Compares two addresses byte by byte.
    pub fn same_as(&self, other: &TExtendedAddress) -> (r: bool)
        ensures
            r == (self.0@ == other.0@),
    {
        let mut i: usize = 0;
        while i < 8
            invariant
                i <= 8,
                forall|j: int| 0 <= j < i ==> self.0@[j] == other.0@[j],
            decreases 8 - i,
        {
            if self.0[i] != other.0[i] {
                return false;
            }
            i = i + 1;
        }
        assert(self.0@ =~= other.0@);
        true
    }
}

/// A G3 address: a 16 bit short address or an extended one.
#[derive(Debug, Copy, Clone)]
pub enum TAddress {
    Short(u16),
    Extended(TExtendedAddress),
}

/// The bytes of an address as sent: the short address big endian, or the
/// eight bytes of the extended address.
pub open spec fn spec_address_bytes(a: TAddress) -> Seq<u8> {
    match a {
        TAddress::Short(s) => seq![(s / 256) as u8, (s % 256) as u8],
        TAddress::Extended(e) => e.0@,
    }
}

impl TAddress {
    pub fn into(self) -> (v: Vec<u8>)
        ensures
            v@ == spec_address_bytes(self),
    {
        let mut v = Vec::new();
        match self {
            TAddress::Short(a) => {
                v.push((a >> 8u16) as u8);
                v.push((a & 0xFF) as u8);
                assert((a >> 8u16) as u8 == a / 256 && (a & 0xFFu16) as u8 == a % 256) by (bit_vector);
            },
            TAddress::Extended(e) => {
                let mut i: usize = 0;
                while i < 8
                    invariant
                        i <= 8,
                        v@ == e.0@.take(i as int),
                    decreases 8 - i,
                {
                    v.push(e.0[i]);
                    assert(e.0@.take(i + 1) =~= e.0@.take(i as int).push(e.0@[i as int]));
                    i = i + 1;
                }
                assert(e.0@.take(8) =~= e.0@);
            },
        }
        assert(v@ =~= spec_address_bytes(self));
        v
    }
}

/// The frequency bands of G3-PLC.
#[derive(Clone, Copy, Debug, PartialEq, Eq, Structural, Hash)]
pub enum TAdpBand {
    ADP_BAND_CENELEC_A,
    ADP_BAND_CENELEC_B,
    ADP_BAND_FCC,
    ADP_BAND_ARIB,
}

/// The wire value of each `TAdpBand`.
pub open spec fn spec_t_adp_band_value(a: TAdpBand) -> u8 {
    match a {
        TAdpBand::ADP_BAND_CENELEC_A => 0x00u8,
        TAdpBand::ADP_BAND_CENELEC_B => 0x01u8,
        TAdpBand::ADP_BAND_FCC => 0x02u8,
        TAdpBand::ADP_BAND_ARIB => 0x03u8,
    }
}

/// The `TAdpBand` of a wire value, if there is one.
pub open spec fn spec_t_adp_band_from(v: u8) -> Option<TAdpBand> {
    match v {
        0x00u8 => Some(TAdpBand::ADP_BAND_CENELEC_A),
        0x01u8 => Some(TAdpBand::ADP_BAND_CENELEC_B),
        0x02u8 => Some(TAdpBand::ADP_BAND_FCC),
        0x03u8 => Some(TAdpBand::ADP_BAND_ARIB),
        _ => None,
    }
}

impl TAdpBand {
    pub fn into_primitive(self) -> (r: u8)
        ensures
            r == spec_t_adp_band_value(self),
    {
        match self {
            TAdpBand::ADP_BAND_CENELEC_A => 0x00,
            TAdpBand::ADP_BAND_CENELEC_B => 0x01,
            TAdpBand::ADP_BAND_FCC => 0x02,
            TAdpBand::ADP_BAND_ARIB => 0x03,
        }
    }

    pub fn try_from_primitive(v: u8) -> (r: Option<TAdpBand>)
        ensures
            r == spec_t_adp_band_from(v),
    {
        match v {
            0x00 => Some(TAdpBand::ADP_BAND_CENELEC_A),
            0x01 => Some(TAdpBand::ADP_BAND_CENELEC_B),
            0x02 => Some(TAdpBand::ADP_BAND_FCC),
            0x03 => Some(TAdpBand::ADP_BAND_ARIB),
            _ => None,
        }
    }
}

/// Reading back the wire value of a `TAdpBand` gives the same `TAdpBand`.
pub proof fn lemma_t_adp_band_roundtrip(a: TAdpBand)
    ensures
        spec_t_adp_band_from(spec_t_adp_band_value(a)) == Some(a),
{
}

/// A wire value that names a `TAdpBand` is that one's value.
pub proof fn lemma_t_adp_band_from_value(v: u8)
    ensures
        spec_t_adp_band_from(v) matches Some(a) ==> spec_t_adp_band_value(a) == v,
{
}

/// PAN descriptor, as the modem reports it after a discovery: the PAN
/// identifier, the link quality of the LBA, the short address of the LBA and
/// the estimated route cost from the LBA to the coordinator.
#[derive(Debug, Clone, Copy, PartialEq, Eq, Structural)]
pub struct TAdpPanDescriptor {
    pub pan_id: u16,
    pub link_quality: u8,
    pub lba_address: u16,
    pub rc_coord: u16,
}

/// One hop of a discovered path: its address, whether the metric type is not
/// supported by it, and its link cost.
#[derive(Debug, Clone, Copy)]
pub struct THopDescriptor {
    pub m_u16HopAddress: u16,
    pub m_u8Mns: u8,
    pub m_u8LinkCost: u8,
}

/// A discovered path, with the forward and the reverse hops.
pub struct TPathDescriptor {
    pub m_u16DstAddr: u16,
    pub m_u16ExpectedOrigAddr: u16,
    pub m_u16OrigAddr: u16,
    pub m_u8MetricType: u8,
    pub m_u8ForwardHopsCount: u8,
    pub m_u8ReverseHopsCount: u8,
    pub m_aForwardPath: [THopDescriptor; 16],
    pub m_aReversePath: [THopDescriptor; 16],
}

/// The ADP information base attributes.
#[derive(Clone, Copy, Debug, PartialEq, Eq, Structural, Hash)]
pub enum EAdpPibAttribute {
    ADP_IB_SECURITY_LEVEL,
    ADP_IB_PREFIX_TABLE,
    ADP_IB_BROADCAST_LOG_TABLE_ENTRY_TTL,
    ADP_IB_METRIC_TYPE,
    ADP_IB_LOW_LQI_VALUE,
    ADP_IB_HIGH_LQI_VALUE,
    ADP_IB_RREP_WAIT,
    ADP_IB_CONTEXT_INFORMATION_TABLE,
    ADP_IB_COORD_SHORT_ADDRESS,
    ADP_IB_RLC_ENABLED,
    ADP_IB_ADD_REV_LINK_COST,
    ADP_IB_BROADCAST_LOG_TABLE,
    ADP_IB_ROUTING_TABLE,
    ADP_IB_UNICAST_RREQ_GEN_ENABLE,
    ADP_IB_GROUP_TABLE,
    ADP_IB_MAX_HOPS,
    ADP_IB_DEVICE_TYPE,
    ADP_IB_NET_TRAVERSAL_TIME,
    ADP_IB_ROUTING_TABLE_ENTRY_TTL,
    ADP_IB_KR,
    ADP_IB_KM,
    ADP_IB_KC,
    ADP_IB_KQ,
    ADP_IB_KH,
    ADP_IB_RREQ_RETRIES,
    ADP_IB_RREQ_WAIT,
    ADP_IB_WEAK_LQI_VALUE,
    ADP_IB_KRT,
    ADP_IB_SOFT_VERSION,
    ADP_IB_SNIFFER_MODE,
    ADP_IB_BLACKLIST_TABLE,
    ADP_IB_BLACKLIST_TABLE_ENTRY_TTL,
    ADP_IB_MAX_JOIN_WAIT_TIME,
    ADP_IB_PATH_DISCOVERY_TIME,
    ADP_IB_ACTIVE_KEY_INDEX,
    ADP_IB_DESTINATION_ADDRESS_SET,
    ADP_IB_DEFAULT_COORD_ROUTE_ENABLED,
    ADP_IB_DISABLE_DEFAULT_ROUTING,
    ADP_IB_MANUF_REASSEMBY_TIMER,
    ADP_IB_MANUF_IPV6_HEADER_COMPRESSION,
    ADP_IB_MANUF_EAP_PRESHARED_KEY,
    ADP_IB_MANUF_EAP_NETWORK_ACCESS_IDENTIFIER,
    ADP_IB_MANUF_BROADCAST_SEQUENCE_NUMBER,
    ADP_IB_MANUF_REGISTER_DEVICE,
    ADP_IB_MANUF_DATAGRAM_TAG,
    ADP_IB_MANUF_RANDP,
    ADP_IB_MANUF_ROUTING_TABLE_COUNT,
    ADP_IB_MANUF_DISCOVER_SEQUENCE_NUMBER,
    ADP_IB_MANUF_FORCED_NO_ACK_REQUEST,
    ADP_IB_MANUF_LQI_TO_COORD,
    ADP_IB_MANUF_BROADCAST_ROUTE_ALL,
    ADP_IB_MANUF_KEEP_PARAMS_AFTER_KICK_LEAVE,
    ADP_IB_MANUF_ADP_INTERNAL_VERSION,
    ADP_IB_MANUF_CIRCULAR_ROUTES_DETECTED,
    ADP_IB_MANUF_LAST_CIRCULAR_ROUTE_ADDRESS,
    ADP_IB_MANUF_IPV6_ULA_DEST_SHORT_ADDRESS,
    ADP_IB_MANUF_MAX_REPAIR_RESEND_ATTEMPTS,
    ADP_IB_MANUF_DISABLE_AUTO_RREQ,
    ADP_IB_MANUF_ALL_NEIGHBORS_BLACKLISTED_COUNT,
    ADP_IB_MANUF_QUEUED_ENTRIES_REMOVED_TIMEOUT_COUNT,
    ADP_IB_MANUF_QUEUED_ENTRIES_REMOVED_ROUTE_ERROR_COUNT,
    ADP_IB_MANUF_PENDING_DATA_IND_SHORT_ADDRESS,
    ADP_IB_MANUF_GET_BAND_CONTEXT_TONES,
    ADP_IB_MANUF_UPDATE_NON_VOLATILE_DATA,
    ADP_IB_MANUF_DISCOVER_ROUTE_GLOBAL_SEQ_NUM,
    INVALID,
}

/// The wire value of each `EAdpPibAttribute`.
pub open spec fn spec_e_adp_pib_attribute_value(a: EAdpPibAttribute) -> u32 {
    match a {
        EAdpPibAttribute::ADP_IB_SECURITY_LEVEL => 0x00000000u32,
        EAdpPibAttribute::ADP_IB_PREFIX_TABLE => 0x00000001u32,
        EAdpPibAttribute::ADP_IB_BROADCAST_LOG_TABLE_ENTRY_TTL => 0x00000002u32,
        EAdpPibAttribute::ADP_IB_METRIC_TYPE => 0x00000003u32,
        EAdpPibAttribute::ADP_IB_LOW_LQI_VALUE => 0x00000004u32,
        EAdpPibAttribute::ADP_IB_HIGH_LQI_VALUE => 0x00000005u32,
        EAdpPibAttribute::ADP_IB_RREP_WAIT => 0x00000006u32,
        EAdpPibAttribute::ADP_IB_CONTEXT_INFORMATION_TABLE => 0x00000007u32,
        EAdpPibAttribute::ADP_IB_COORD_SHORT_ADDRESS => 0x00000008u32,
        EAdpPibAttribute::ADP_IB_RLC_ENABLED => 0x00000009u32,
        EAdpPibAttribute::ADP_IB_ADD_REV_LINK_COST => 0x0000000Au32,
        EAdpPibAttribute::ADP_IB_BROADCAST_LOG_TABLE => 0x0000000Bu32,
        EAdpPibAttribute::ADP_IB_ROUTING_TABLE => 0x0000000Cu32,
        EAdpPibAttribute::ADP_IB_UNICAST_RREQ_GEN_ENABLE => 0x0000000Du32,
        EAdpPibAttribute::ADP_IB_GROUP_TABLE => 0x0000000Eu32,
        EAdpPibAttribute::ADP_IB_MAX_HOPS => 0x0000000Fu32,
        EAdpPibAttribute::ADP_IB_DEVICE_TYPE => 0x00000010u32,
        EAdpPibAttribute::ADP_IB_NET_TRAVERSAL_TIME => 0x00000011u32,
        EAdpPibAttribute::ADP_IB_ROUTING_TABLE_ENTRY_TTL => 0x00000012u32,
        EAdpPibAttribute::ADP_IB_KR => 0x00000013u32,
        EAdpPibAttribute::ADP_IB_KM => 0x00000014u32,
        EAdpPibAttribute::ADP_IB_KC => 0x00000015u32,
        EAdpPibAttribute::ADP_IB_KQ => 0x00000016u32,
        EAdpPibAttribute::ADP_IB_KH => 0x00000017u32,
        EAdpPibAttribute::ADP_IB_RREQ_RETRIES => 0x00000018u32,
        EAdpPibAttribute::ADP_IB_RREQ_WAIT => 0x00000019u32,
        EAdpPibAttribute::ADP_IB_WEAK_LQI_VALUE => 0x0000001Au32,
        EAdpPibAttribute::ADP_IB_KRT => 0x0000001Bu32,
        EAdpPibAttribute::ADP_IB_SOFT_VERSION => 0x0000001Cu32,
        EAdpPibAttribute::ADP_IB_SNIFFER_MODE => 0x0000001Du32,
        EAdpPibAttribute::ADP_IB_BLACKLIST_TABLE => 0x0000001Eu32,
        EAdpPibAttribute::ADP_IB_BLACKLIST_TABLE_ENTRY_TTL => 0x0000001Fu32,
        EAdpPibAttribute::ADP_IB_MAX_JOIN_WAIT_TIME => 0x00000020u32,
        EAdpPibAttribute::ADP_IB_PATH_DISCOVERY_TIME => 0x00000021u32,
        EAdpPibAttribute::ADP_IB_ACTIVE_KEY_INDEX => 0x00000022u32,
        EAdpPibAttribute::ADP_IB_DESTINATION_ADDRESS_SET => 0x00000023u32,
        EAdpPibAttribute::ADP_IB_DEFAULT_COORD_ROUTE_ENABLED => 0x00000024u32,
        EAdpPibAttribute::ADP_IB_DISABLE_DEFAULT_ROUTING => 0x000000F0u32,
        EAdpPibAttribute::ADP_IB_MANUF_REASSEMBY_TIMER => 0x080000C0u32,
        EAdpPibAttribute::ADP_IB_MANUF_IPV6_HEADER_COMPRESSION => 0x080000C1u32,
        EAdpPibAttribute::ADP_IB_MANUF_EAP_PRESHARED_KEY => 0x080000C2u32,
        EAdpPibAttribute::ADP_IB_MANUF_EAP_NETWORK_ACCESS_IDENTIFIER => 0x080000C3u32,
        EAdpPibAttribute::ADP_IB_MANUF_BROADCAST_SEQUENCE_NUMBER => 0x080000C4u32,
        EAdpPibAttribute::ADP_IB_MANUF_REGISTER_DEVICE => 0x080000C5u32,
        EAdpPibAttribute::ADP_IB_MANUF_DATAGRAM_TAG => 0x080000C6u32,
        EAdpPibAttribute::ADP_IB_MANUF_RANDP => 0x080000C7u32,
        EAdpPibAttribute::ADP_IB_MANUF_ROUTING_TABLE_COUNT => 0x080000C8u32,
        EAdpPibAttribute::ADP_IB_MANUF_DISCOVER_SEQUENCE_NUMBER => 0x080000C9u32,
        EAdpPibAttribute::ADP_IB_MANUF_FORCED_NO_ACK_REQUEST => 0x080000CAu32,
        EAdpPibAttribute::ADP_IB_MANUF_LQI_TO_COORD => 0x080000CBu32,
        EAdpPibAttribute::ADP_IB_MANUF_BROADCAST_ROUTE_ALL => 0x080000CCu32,
        EAdpPibAttribute::ADP_IB_MANUF_KEEP_PARAMS_AFTER_KICK_LEAVE => 0x080000CDu32,
        EAdpPibAttribute::ADP_IB_MANUF_ADP_INTERNAL_VERSION => 0x080000CEu32,
        EAdpPibAttribute::ADP_IB_MANUF_CIRCULAR_ROUTES_DETECTED => 0x080000CFu32,
        EAdpPibAttribute::ADP_IB_MANUF_LAST_CIRCULAR_ROUTE_ADDRESS => 0x080000D0u32,
        EAdpPibAttribute::ADP_IB_MANUF_IPV6_ULA_DEST_SHORT_ADDRESS => 0x080000D1u32,
        EAdpPibAttribute::ADP_IB_MANUF_MAX_REPAIR_RESEND_ATTEMPTS => 0x080000D2u32,
        EAdpPibAttribute::ADP_IB_MANUF_DISABLE_AUTO_RREQ => 0x080000D3u32,
        EAdpPibAttribute::ADP_IB_MANUF_ALL_NEIGHBORS_BLACKLISTED_COUNT => 0x080000D5u32,
        EAdpPibAttribute::ADP_IB_MANUF_QUEUED_ENTRIES_REMOVED_TIMEOUT_COUNT => 0x080000D6u32,
        EAdpPibAttribute::ADP_IB_MANUF_QUEUED_ENTRIES_REMOVED_ROUTE_ERROR_COUNT => 0x080000D7u32,
        EAdpPibAttribute::ADP_IB_MANUF_PENDING_DATA_IND_SHORT_ADDRESS => 0x080000D8u32,
        EAdpPibAttribute::ADP_IB_MANUF_GET_BAND_CONTEXT_TONES => 0x080000D9u32,
        EAdpPibAttribute::ADP_IB_MANUF_UPDATE_NON_VOLATILE_DATA => 0x080000DAu32,
        EAdpPibAttribute::ADP_IB_MANUF_DISCOVER_ROUTE_GLOBAL_SEQ_NUM => 0x080000DBu32,
        EAdpPibAttribute::INVALID => 0xFFFFFFFFu32,
    }
}

/// The `EAdpPibAttribute` of a wire value, if there is one.
pub open spec fn spec_e_adp_pib_attribute_from(v: u32) -> Option<EAdpPibAttribute> {
    match v {
        0x00000000u32 => Some(EAdpPibAttribute::ADP_IB_SECURITY_LEVEL),
        0x00000001u32 => Some(EAdpPibAttribute::ADP_IB_PREFIX_TABLE),
        0x00000002u32 => Some(EAdpPibAttribute::ADP_IB_BROADCAST_LOG_TABLE_ENTRY_TTL),
        0x00000003u32 => Some(EAdpPibAttribute::ADP_IB_METRIC_TYPE),
        0x00000004u32 => Some(EAdpPibAttribute::ADP_IB_LOW_LQI_VALUE),
        0x00000005u32 => Some(EAdpPibAttribute::ADP_IB_HIGH_LQI_VALUE),
        0x00000006u32 => Some(EAdpPibAttribute::ADP_IB_RREP_WAIT),
        0x00000007u32 => Some(EAdpPibAttribute::ADP_IB_CONTEXT_INFORMATION_TABLE),
        0x00000008u32 => Some(EAdpPibAttribute::ADP_IB_COORD_SHORT_ADDRESS),
        0x00000009u32 => Some(EAdpPibAttribute::ADP_IB_RLC_ENABLED),
        0x0000000Au32 => Some(EAdpPibAttribute::ADP_IB_ADD_REV_LINK_COST),
        0x0000000Bu32 => Some(EAdpPibAttribute::ADP_IB_BROADCAST_LOG_TABLE),
        0x0000000Cu32 => Some(EAdpPibAttribute::ADP_IB_ROUTING_TABLE),
        0x0000000Du32 => Some(EAdpPibAttribute::ADP_IB_UNICAST_RREQ_GEN_ENABLE),
        0x0000000Eu32 => Some(EAdpPibAttribute::ADP_IB_GROUP_TABLE),
        0x0000000Fu32 => Some(EAdpPibAttribute::ADP_IB_MAX_HOPS),
        0x00000010u32 => Some(EAdpPibAttribute::ADP_IB_DEVICE_TYPE),
        0x00000011u32 => Some(EAdpPibAttribute::ADP_IB_NET_TRAVERSAL_TIME),
        0x00000012u32 => Some(EAdpPibAttribute::ADP_IB_ROUTING_TABLE_ENTRY_TTL),
        0x00000013u32 => Some(EAdpPibAttribute::ADP_IB_KR),
        0x00000014u32 => Some(EAdpPibAttribute::ADP_IB_KM),
        0x00000015u32 => Some(EAdpPibAttribute::ADP_IB_KC),
        0x00000016u32 => Some(EAdpPibAttribute::ADP_IB_KQ),
        0x00000017u32 => Some(EAdpPibAttribute::ADP_IB_KH),
        0x00000018u32 => Some(EAdpPibAttribute::ADP_IB_RREQ_RETRIES),
        0x00000019u32 => Some(EAdpPibAttribute::ADP_IB_RREQ_WAIT),
        0x0000001Au32 => Some(EAdpPibAttribute::ADP_IB_WEAK_LQI_VALUE),
        0x0000001Bu32 => Some(EAdpPibAttribute::ADP_IB_KRT),
        0x0000001Cu32 => Some(EAdpPibAttribute::ADP_IB_SOFT_VERSION),
        0x0000001Du32 => Some(EAdpPibAttribute::ADP_IB_SNIFFER_MODE),
        0x0000001Eu32 => Some(EAdpPibAttribute::ADP_IB_BLACKLIST_TABLE),
        0x0000001Fu32 => Some(EAdpPibAttribute::ADP_IB_BLACKLIST_TABLE_ENTRY_TTL),
        0x00000020u32 => Some(EAdpPibAttribute::ADP_IB_MAX_JOIN_WAIT_TIME),
        0x00000021u32 => Some(EAdpPibAttribute::ADP_IB_PATH_DISCOVERY_TIME),
        0x00000022u32 => Some(EAdpPibAttribute::ADP_IB_ACTIVE_KEY_INDEX),
        0x00000023u32 => Some(EAdpPibAttribute::ADP_IB_DESTINATION_ADDRESS_SET),
        0x00000024u32 => Some(EAdpPibAttribute::ADP_IB_DEFAULT_COORD_ROUTE_ENABLED),
        0x000000F0u32 => Some(EAdpPibAttribute::ADP_IB_DISABLE_DEFAULT_ROUTING),
        0x080000C0u32 => Some(EAdpPibAttribute::ADP_IB_MANUF_REASSEMBY_TIMER),
        0x080000C1u32 => Some(EAdpPibAttribute::ADP_IB_MANUF_IPV6_HEADER_COMPRESSION),
        0x080000C2u32 => Some(EAdpPibAttribute::ADP_IB_MANUF_EAP_PRESHARED_KEY),
        0x080000C3u32 => Some(EAdpPibAttribute::ADP_IB_MANUF_EAP_NETWORK_ACCESS_IDENTIFIER),
        0x080000C4u32 => Some(EAdpPibAttribute::ADP_IB_MANUF_BROADCAST_SEQUENCE_NUMBER),
        0x080000C5u32 => Some(EAdpPibAttribute::ADP_IB_MANUF_REGISTER_DEVICE),
        0x080000C6u32 => Some(EAdpPibAttribute::ADP_IB_MANUF_DATAGRAM_TAG),
        0x080000C7u32 => Some(EAdpPibAttribute::ADP_IB_MANUF_RANDP),
        0x080000C8u32 => Some(EAdpPibAttribute::ADP_IB_MANUF_ROUTING_TABLE_COUNT),
        0x080000C9u32 => Some(EAdpPibAttribute::ADP_IB_MANUF_DISCOVER_SEQUENCE_NUMBER),
        0x080000CAu32 => Some(EAdpPibAttribute::ADP_IB_MANUF_FORCED_NO_ACK_REQUEST),
        0x080000CBu32 => Some(EAdpPibAttribute::ADP_IB_MANUF_LQI_TO_COORD),
        0x080000CCu32 => Some(EAdpPibAttribute::ADP_IB_MANUF_BROADCAST_ROUTE_ALL),
        0x080000CDu32 => Some(EAdpPibAttribute::ADP_IB_MANUF_KEEP_PARAMS_AFTER_KICK_LEAVE),
        0x080000CEu32 => Some(EAdpPibAttribute::ADP_IB_MANUF_ADP_INTERNAL_VERSION),
        0x080000CFu32 => Some(EAdpPibAttribute::ADP_IB_MANUF_CIRCULAR_ROUTES_DETECTED),
        0x080000D0u32 => Some(EAdpPibAttribute::ADP_IB_MANUF_LAST_CIRCULAR_ROUTE_ADDRESS),
        0x080000D1u32 => Some(EAdpPibAttribute::ADP_IB_MANUF_IPV6_ULA_DEST_SHORT_ADDRESS),
        0x080000D2u32 => Some(EAdpPibAttribute::ADP_IB_MANUF_MAX_REPAIR_RESEND_ATTEMPTS),
        0x080000D3u32 => Some(EAdpPibAttribute::ADP_IB_MANUF_DISABLE_AUTO_RREQ),
        0x080000D5u32 => Some(EAdpPibAttribute::ADP_IB_MANUF_ALL_NEIGHBORS_BLACKLISTED_COUNT),
        0x080000D6u32 => Some(EAdpPibAttribute::ADP_IB_MANUF_QUEUED_ENTRIES_REMOVED_TIMEOUT_COUNT),
        0x080000D7u32 => Some(EAdpPibAttribute::ADP_IB_MANUF_QUEUED_ENTRIES_REMOVED_ROUTE_ERROR_COUNT),
        0x080000D8u32 => Some(EAdpPibAttribute::ADP_IB_MANUF_PENDING_DATA_IND_SHORT_ADDRESS),
        0x080000D9u32 => Some(EAdpPibAttribute::ADP_IB_MANUF_GET_BAND_CONTEXT_TONES),
        0x080000DAu32 => Some(EAdpPibAttribute::ADP_IB_MANUF_UPDATE_NON_VOLATILE_DATA),
        0x080000DBu32 => Some(EAdpPibAttribute::ADP_IB_MANUF_DISCOVER_ROUTE_GLOBAL_SEQ_NUM),
        0xFFFFFFFFu32 => Some(EAdpPibAttribute::INVALID),
        _ => None,
    }
}

impl EAdpPibAttribute {
    pub fn into_primitive(self) -> (r: u32)
        ensures
            r == spec_e_adp_pib_attribute_value(self),
    {
        match self {
            EAdpPibAttribute::ADP_IB_SECURITY_LEVEL => 0x00000000,
            EAdpPibAttribute::ADP_IB_PREFIX_TABLE => 0x00000001,
            EAdpPibAttribute::ADP_IB_BROADCAST_LOG_TABLE_ENTRY_TTL => 0x00000002,
            EAdpPibAttribute::ADP_IB_METRIC_TYPE => 0x00000003,
            EAdpPibAttribute::ADP_IB_LOW_LQI_VALUE => 0x00000004,
            EAdpPibAttribute::ADP_IB_HIGH_LQI_VALUE => 0x00000005,
            EAdpPibAttribute::ADP_IB_RREP_WAIT => 0x00000006,
            EAdpPibAttribute::ADP_IB_CONTEXT_INFORMATION_TABLE => 0x00000007,
            EAdpPibAttribute::ADP_IB_COORD_SHORT_ADDRESS => 0x00000008,
            EAdpPibAttribute::ADP_IB_RLC_ENABLED => 0x00000009,
            EAdpPibAttribute::ADP_IB_ADD_REV_LINK_COST => 0x0000000A,
            EAdpPibAttribute::ADP_IB_BROADCAST_LOG_TABLE => 0x0000000B,
            EAdpPibAttribute::ADP_IB_ROUTING_TABLE => 0x0000000C,
            EAdpPibAttribute::ADP_IB_UNICAST_RREQ_GEN_ENABLE => 0x0000000D,
            EAdpPibAttribute::ADP_IB_GROUP_TABLE => 0x0000000E,
            EAdpPibAttribute::ADP_IB_MAX_HOPS => 0x0000000F,
            EAdpPibAttribute::ADP_IB_DEVICE_TYPE => 0x00000010,
            EAdpPibAttribute::ADP_IB_NET_TRAVERSAL_TIME => 0x00000011,
            EAdpPibAttribute::ADP_IB_ROUTING_TABLE_ENTRY_TTL => 0x00000012,
            EAdpPibAttribute::ADP_IB_KR => 0x00000013,
            EAdpPibAttribute::ADP_IB_KM => 0x00000014,
            EAdpPibAttribute::ADP_IB_KC => 0x00000015,
            EAdpPibAttribute::ADP_IB_KQ => 0x00000016,
            EAdpPibAttribute::ADP_IB_KH => 0x00000017,
            EAdpPibAttribute::ADP_IB_RREQ_RETRIES => 0x00000018,
            EAdpPibAttribute::ADP_IB_RREQ_WAIT => 0x00000019,
            EAdpPibAttribute::ADP_IB_WEAK_LQI_VALUE => 0x0000001A,
            EAdpPibAttribute::ADP_IB_KRT => 0x0000001B,
            EAdpPibAttribute::ADP_IB_SOFT_VERSION => 0x0000001C,
            EAdpPibAttribute::ADP_IB_SNIFFER_MODE => 0x0000001D,
            EAdpPibAttribute::ADP_IB_BLACKLIST_TABLE => 0x0000001E,
            EAdpPibAttribute::ADP_IB_BLACKLIST_TABLE_ENTRY_TTL => 0x0000001F,
            EAdpPibAttribute::ADP_IB_MAX_JOIN_WAIT_TIME => 0x00000020,
            EAdpPibAttribute::ADP_IB_PATH_DISCOVERY_TIME => 0x00000021,
            EAdpPibAttribute::ADP_IB_ACTIVE_KEY_INDEX => 0x00000022,
            EAdpPibAttribute::ADP_IB_DESTINATION_ADDRESS_SET => 0x00000023,
            EAdpPibAttribute::ADP_IB_DEFAULT_COORD_ROUTE_ENABLED => 0x00000024,
            EAdpPibAttribute::ADP_IB_DISABLE_DEFAULT_ROUTING => 0x000000F0,
            EAdpPibAttribute::ADP_IB_MANUF_REASSEMBY_TIMER => 0x080000C0,
            EAdpPibAttribute::ADP_IB_MANUF_IPV6_HEADER_COMPRESSION => 0x080000C1,
            EAdpPibAttribute::ADP_IB_MANUF_EAP_PRESHARED_KEY => 0x080000C2,
            EAdpPibAttribute::ADP_IB_MANUF_EAP_NETWORK_ACCESS_IDENTIFIER => 0x080000C3,
            EAdpPibAttribute::ADP_IB_MANUF_BROADCAST_SEQUENCE_NUMBER => 0x080000C4,
            EAdpPibAttribute::ADP_IB_MANUF_REGISTER_DEVICE => 0x080000C5,
            EAdpPibAttribute::ADP_IB_MANUF_DATAGRAM_TAG => 0x080000C6,
            EAdpPibAttribute::ADP_IB_MANUF_RANDP => 0x080000C7,
            EAdpPibAttribute::ADP_IB_MANUF_ROUTING_TABLE_COUNT => 0x080000C8,
            EAdpPibAttribute::ADP_IB_MANUF_DISCOVER_SEQUENCE_NUMBER => 0x080000C9,
            EAdpPibAttribute::ADP_IB_MANUF_FORCED_NO_ACK_REQUEST => 0x080000CA,
            EAdpPibAttribute::ADP_IB_MANUF_LQI_TO_COORD => 0x080000CB,
            EAdpPibAttribute::ADP_IB_MANUF_BROADCAST_ROUTE_ALL => 0x080000CC,
            EAdpPibAttribute::ADP_IB_MANUF_KEEP_PARAMS_AFTER_KICK_LEAVE => 0x080000CD,
            EAdpPibAttribute::ADP_IB_MANUF_ADP_INTERNAL_VERSION => 0x080000CE,
            EAdpPibAttribute::ADP_IB_MANUF_CIRCULAR_ROUTES_DETECTED => 0x080000CF,
            EAdpPibAttribute::ADP_IB_MANUF_LAST_CIRCULAR_ROUTE_ADDRESS => 0x080000D0,
            EAdpPibAttribute::ADP_IB_MANUF_IPV6_ULA_DEST_SHORT_ADDRESS => 0x080000D1,
            EAdpPibAttribute::ADP_IB_MANUF_MAX_REPAIR_RESEND_ATTEMPTS => 0x080000D2,
            EAdpPibAttribute::ADP_IB_MANUF_DISABLE_AUTO_RREQ => 0x080000D3,
            EAdpPibAttribute::ADP_IB_MANUF_ALL_NEIGHBORS_BLACKLISTED_COUNT => 0x080000D5,
            EAdpPibAttribute::ADP_IB_MANUF_QUEUED_ENTRIES_REMOVED_TIMEOUT_COUNT => 0x080000D6,
            EAdpPibAttribute::ADP_IB_MANUF_QUEUED_ENTRIES_REMOVED_ROUTE_ERROR_COUNT => 0x080000D7,
            EAdpPibAttribute::ADP_IB_MANUF_PENDING_DATA_IND_SHORT_ADDRESS => 0x080000D8,
            EAdpPibAttribute::ADP_IB_MANUF_GET_BAND_CONTEXT_TONES => 0x080000D9,
            EAdpPibAttribute::ADP_IB_MANUF_UPDATE_NON_VOLATILE_DATA => 0x080000DA,
            EAdpPibAttribute::ADP_IB_MANUF_DISCOVER_ROUTE_GLOBAL_SEQ_NUM => 0x080000DB,
            EAdpPibAttribute::INVALID => 0xFFFFFFFF,
        }
    }

    pub fn try_from_primitive(v: u32) -> (r: Option<EAdpPibAttribute>)
        ensures
            r == spec_e_adp_pib_attribute_from(v),
    {
        match v {
            0x00000000 => Some(EAdpPibAttribute::ADP_IB_SECURITY_LEVEL),
            0x00000001 => Some(EAdpPibAttribute::ADP_IB_PREFIX_TABLE),
            0x00000002 => Some(EAdpPibAttribute::ADP_IB_BROADCAST_LOG_TABLE_ENTRY_TTL),
            0x00000003 => Some(EAdpPibAttribute::ADP_IB_METRIC_TYPE),
            0x00000004 => Some(EAdpPibAttribute::ADP_IB_LOW_LQI_VALUE),
            0x00000005 => Some(EAdpPibAttribute::ADP_IB_HIGH_LQI_VALUE),
            0x00000006 => Some(EAdpPibAttribute::ADP_IB_RREP_WAIT),
            0x00000007 => Some(EAdpPibAttribute::ADP_IB_CONTEXT_INFORMATION_TABLE),
            0x00000008 => Some(EAdpPibAttribute::ADP_IB_COORD_SHORT_ADDRESS),
            0x00000009 => Some(EAdpPibAttribute::ADP_IB_RLC_ENABLED),
            0x0000000A => Some(EAdpPibAttribute::ADP_IB_ADD_REV_LINK_COST),
            0x0000000B => Some(EAdpPibAttribute::ADP_IB_BROADCAST_LOG_TABLE),
            0x0000000C => Some(EAdpPibAttribute::ADP_IB_ROUTING_TABLE),
            0x0000000D => Some(EAdpPibAttribute::ADP_IB_UNICAST_RREQ_GEN_ENABLE),
            0x0000000E => Some(EAdpPibAttribute::ADP_IB_GROUP_TABLE),
            0x0000000F => Some(EAdpPibAttribute::ADP_IB_MAX_HOPS),
            0x00000010 => Some(EAdpPibAttribute::ADP_IB_DEVICE_TYPE),
            0x00000011 => Some(EAdpPibAttribute::ADP_IB_NET_TRAVERSAL_TIME),
            0x00000012 => Some(EAdpPibAttribute::ADP_IB_ROUTING_TABLE_ENTRY_TTL),
            0x00000013 => Some(EAdpPibAttribute::ADP_IB_KR),
            0x00000014 => Some(EAdpPibAttribute::ADP_IB_KM),
            0x00000015 => Some(EAdpPibAttribute::ADP_IB_KC),
            0x00000016 => Some(EAdpPibAttribute::ADP_IB_KQ),
            0x00000017 => Some(EAdpPibAttribute::ADP_IB_KH),
            0x00000018 => Some(EAdpPibAttribute::ADP_IB_RREQ_RETRIES),
            0x00000019 => Some(EAdpPibAttribute::ADP_IB_RREQ_WAIT),
            0x0000001A => Some(EAdpPibAttribute::ADP_IB_WEAK_LQI_VALUE),
            0x0000001B => Some(EAdpPibAttribute::ADP_IB_KRT),
            0x0000001C => Some(EAdpPibAttribute::ADP_IB_SOFT_VERSION),
            0x0000001D => Some(EAdpPibAttribute::ADP_IB_SNIFFER_MODE),
            0x0000001E => Some(EAdpPibAttribute::ADP_IB_BLACKLIST_TABLE),
            0x0000001F => Some(EAdpPibAttribute::ADP_IB_BLACKLIST_TABLE_ENTRY_TTL),
            0x00000020 => Some(EAdpPibAttribute::ADP_IB_MAX_JOIN_WAIT_TIME),
            0x00000021 => Some(EAdpPibAttribute::ADP_IB_PATH_DISCOVERY_TIME),
            0x00000022 => Some(EAdpPibAttribute::ADP_IB_ACTIVE_KEY_INDEX),
            0x00000023 => Some(EAdpPibAttribute::ADP_IB_DESTINATION_ADDRESS_SET),
            0x00000024 => Some(EAdpPibAttribute::ADP_IB_DEFAULT_COORD_ROUTE_ENABLED),
            0x000000F0 => Some(EAdpPibAttribute::ADP_IB_DISABLE_DEFAULT_ROUTING),
            0x080000C0 => Some(EAdpPibAttribute::ADP_IB_MANUF_REASSEMBY_TIMER),
            0x080000C1 => Some(EAdpPibAttribute::ADP_IB_MANUF_IPV6_HEADER_COMPRESSION),
            0x080000C2 => Some(EAdpPibAttribute::ADP_IB_MANUF_EAP_PRESHARED_KEY),
            0x080000C3 => Some(EAdpPibAttribute::ADP_IB_MANUF_EAP_NETWORK_ACCESS_IDENTIFIER),
            0x080000C4 => Some(EAdpPibAttribute::ADP_IB_MANUF_BROADCAST_SEQUENCE_NUMBER),
            0x080000C5 => Some(EAdpPibAttribute::ADP_IB_MANUF_REGISTER_DEVICE),
            0x080000C6 => Some(EAdpPibAttribute::ADP_IB_MANUF_DATAGRAM_TAG),
            0x080000C7 => Some(EAdpPibAttribute::ADP_IB_MANUF_RANDP),
            0x080000C8 => Some(EAdpPibAttribute::ADP_IB_MANUF_ROUTING_TABLE_COUNT),
            0x080000C9 => Some(EAdpPibAttribute::ADP_IB_MANUF_DISCOVER_SEQUENCE_NUMBER),
            0x080000CA => Some(EAdpPibAttribute::ADP_IB_MANUF_FORCED_NO_ACK_REQUEST),
            0x080000CB => Some(EAdpPibAttribute::ADP_IB_MANUF_LQI_TO_COORD),
            0x080000CC => Some(EAdpPibAttribute::ADP_IB_MANUF_BROADCAST_ROUTE_ALL),
            0x080000CD => Some(EAdpPibAttribute::ADP_IB_MANUF_KEEP_PARAMS_AFTER_KICK_LEAVE),
            0x080000CE => Some(EAdpPibAttribute::ADP_IB_MANUF_ADP_INTERNAL_VERSION),
            0x080000CF => Some(EAdpPibAttribute::ADP_IB_MANUF_CIRCULAR_ROUTES_DETECTED),
            0x080000D0 => Some(EAdpPibAttribute::ADP_IB_MANUF_LAST_CIRCULAR_ROUTE_ADDRESS),
            0x080000D1 => Some(EAdpPibAttribute::ADP_IB_MANUF_IPV6_ULA_DEST_SHORT_ADDRESS),
            0x080000D2 => Some(EAdpPibAttribute::ADP_IB_MANUF_MAX_REPAIR_RESEND_ATTEMPTS),
            0x080000D3 => Some(EAdpPibAttribute::ADP_IB_MANUF_DISABLE_AUTO_RREQ),
            0x080000D5 => Some(EAdpPibAttribute::ADP_IB_MANUF_ALL_NEIGHBORS_BLACKLISTED_COUNT),
            0x080000D6 => Some(EAdpPibAttribute::ADP_IB_MANUF_QUEUED_ENTRIES_REMOVED_TIMEOUT_COUNT),
            0x080000D7 => Some(EAdpPibAttribute::ADP_IB_MANUF_QUEUED_ENTRIES_REMOVED_ROUTE_ERROR_COUNT),
            0x080000D8 => Some(EAdpPibAttribute::ADP_IB_MANUF_PENDING_DATA_IND_SHORT_ADDRESS),
            0x080000D9 => Some(EAdpPibAttribute::ADP_IB_MANUF_GET_BAND_CONTEXT_TONES),
            0x080000DA => Some(EAdpPibAttribute::ADP_IB_MANUF_UPDATE_NON_VOLATILE_DATA),
            0x080000DB => Some(EAdpPibAttribute::ADP_IB_MANUF_DISCOVER_ROUTE_GLOBAL_SEQ_NUM),
            0xFFFFFFFF => Some(EAdpPibAttribute::INVALID),
            _ => None,
        }
    }
}

/// Reading back the wire value of a `EAdpPibAttribute` gives the same `EAdpPibAttribute`.
pub proof fn lemma_e_adp_pib_attribute_roundtrip(a: EAdpPibAttribute)
    ensures
        spec_e_adp_pib_attribute_from(spec_e_adp_pib_attribute_value(a)) == Some(a),
{
}

/// A wire value that names a `EAdpPibAttribute` is that one's value.
pub proof fn lemma_e_adp_pib_attribute_from_value(v: u32)
    ensures
        spec_e_adp_pib_attribute_from(v) matches Some(a) ==> spec_e_adp_pib_attribute_value(a) == v,
{
}

/// The MAC information base attributes.
#[derive(Clone, Copy, Debug, PartialEq, Eq, Structural, Hash)]
pub enum EMacWrpPibAttribute {
    MAC_WRP_PIB_ACK_WAIT_DURATION,
    MAC_WRP_PIB_MAX_BE,
    MAC_WRP_PIB_BSN,
    MAC_WRP_PIB_DSN,
    MAC_WRP_PIB_MAX_CSMA_BACKOFFS,
    MAC_WRP_PIB_MIN_BE,
    MAC_WRP_PIB_PAN_ID,
    MAC_WRP_PIB_PROMISCUOUS_MODE,
    MAC_WRP_PIB_SHORT_ADDRESS,
    MAC_WRP_PIB_MAX_FRAME_RETRIES,
    MAC_WRP_PIB_TIMESTAMP_SUPPORTED,
    MAC_WRP_PIB_SECURITY_ENABLED,
    MAC_WRP_PIB_KEY_TABLE,
    MAC_WRP_PIB_FRAME_COUNTER,
    MAC_WRP_PIB_HIGH_PRIORITY_WINDOW_SIZE,
    MAC_WRP_PIB_TX_DATA_PACKET_COUNT,
    MAC_WRP_PIB_RX_DATA_PACKET_COUNT,
    MAC_WRP_PIB_TX_CMD_PACKET_COUNT,
    MAC_WRP_PIB_RX_CMD_PACKET_COUNT,
    MAC_WRP_PIB_CSMA_FAIL_COUNT,
    MAC_WRP_PIB_CSMA_NO_ACK_COUNT,
    MAC_WRP_PIB_RX_DATA_BROADCAST_COUNT,
    MAC_WRP_PIB_TX_DATA_BROADCAST_COUNT,
    MAC_WRP_PIB_BAD_CRC_COUNT,
    MAC_WRP_PIB_NEIGHBOUR_TABLE,
    MAC_WRP_PIB_FREQ_NOTCHING,
    MAC_WRP_PIB_CSMA_FAIRNESS_LIMIT,
    MAC_WRP_PIB_TMR_TTL,
    MAC_WRP_PIB_NEIGHBOUR_TABLE_ENTRY_TTL,
    MAC_WRP_PIB_RC_COORD,
    MAC_WRP_PIB_TONE_MASK,
    MAC_WRP_PIB_BEACON_RANDOMIZATION_WINDOW_LENGTH,
    MAC_WRP_PIB_A,
    MAC_WRP_PIB_K,
    MAC_WRP_PIB_MIN_CW_ATTEMPTS,
    MAC_WRP_PIB_CENELEC_LEGACY_MODE,
    MAC_WRP_PIB_FCC_LEGACY_MODE,
    MAC_WRP_PIB_BROADCAST_MAX_CW_ENABLE,
    MAC_WRP_PIB_TRANSMIT_ATTEN,
    MAC_WRP_PIB_POS_TABLE,
    MAC_WRP_PIB_MANUF_DEVICE_TABLE,
    MAC_WRP_PIB_MANUF_EXTENDED_ADDRESS,
    MAC_WRP_PIB_MANUF_NEIGHBOUR_TABLE_ELEMENT,
    MAC_WRP_PIB_MANUF_BAND_INFORMATION,
    MAC_WRP_PIB_MANUF_COORD_SHORT_ADDRESS,
    MAC_WRP_PIB_MANUF_MAX_MAC_PAYLOAD_SIZE,
    MAC_WRP_PIB_MANUF_SECURITY_RESET,
    MAC_WRP_PIB_MANUF_FORCED_MOD_SCHEME,
    MAC_WRP_PIB_MANUF_FORCED_MOD_TYPE,
    MAC_WRP_PIB_MANUF_FORCED_TONEMAP,
    MAC_WRP_PIB_MANUF_FORCED_MOD_SCHEME_ON_TMRESPONSE,
    MAC_WRP_PIB_MANUF_FORCED_MOD_TYPE_ON_TMRESPONSE,
    MAC_WRP_PIB_MANUF_FORCED_TONEMAP_ON_TMRESPONSE,
    MAC_WRP_PIB_MANUF_LAST_RX_MOD_SCHEME,
    MAC_WRP_PIB_MANUF_LAST_RX_MOD_TYPE,
    MAC_WRP_PIB_MANUF_LBP_FRAME_RECEIVED,
    MAC_WRP_PIB_MANUF_LNG_FRAME_RECEIVED,
    MAC_WRP_PIB_MANUF_BCN_FRAME_RECEIVED,
    MAC_WRP_PIB_MANUF_NEIGHBOUR_TABLE_COUNT,
    MAC_WRP_PIB_MANUF_RX_OTHER_DESTINATION_COUNT,
    MAC_WRP_PIB_MANUF_RX_INVALID_FRAME_LENGTH_COUNT,
    MAC_WRP_PIB_MANUF_RX_MAC_REPETITION_COUNT,
    MAC_WRP_PIB_MANUF_RX_WRONG_ADDR_MODE_COUNT,
    MAC_WRP_PIB_MANUF_RX_UNSUPPORTED_SECURITY_COUNT,
    MAC_WRP_PIB_MANUF_RX_WRONG_KEY_ID_COUNT,
    MAC_WRP_PIB_MANUF_RX_INVALID_KEY_COUNT,
    MAC_WRP_PIB_MANUF_RX_WRONG_FC_COUNT,
    MAC_WRP_PIB_MANUF_RX_DECRYPTION_ERROR_COUNT,
    MAC_WRP_PIB_MANUF_RX_SEGMENT_DECODE_ERROR_COUNT,
    MAC_WRP_PIB_MANUF_ENABLE_MAC_SNIFFER,
    MAC_WRP_PIB_MANUF_POS_TABLE_COUNT,
    MAC_WRP_PIB_MANUF_RETRIES_LEFT_TO_FORCE_ROBO,
    MAC_WRP_PIB_MANUF_MAC_INTERNAL_VERSION,
    MAC_WRP_PIB_MANUF_MAC_RT_INTERNAL_VERSION,
    MAC_WRP_PIB_MANUF_PHY_PARAM,
}

/// The wire value of each `EMacWrpPibAttribute`.
pub open spec fn spec_e_mac_wrp_pib_attribute_value(a: EMacWrpPibAttribute) -> u32 {
    match a {
        EMacWrpPibAttribute::MAC_WRP_PIB_ACK_WAIT_DURATION => 0x00000040u32,
        EMacWrpPibAttribute::MAC_WRP_PIB_MAX_BE => 0x00000047u32,
        EMacWrpPibAttribute::MAC_WRP_PIB_BSN => 0x00000049u32,
        EMacWrpPibAttribute::MAC_WRP_PIB_DSN => 0x0000004Cu32,
        EMacWrpPibAttribute::MAC_WRP_PIB_MAX_CSMA_BACKOFFS => 0x0000004Eu32,
        EMacWrpPibAttribute::MAC_WRP_PIB_MIN_BE => 0x0000004Fu32,
        EMacWrpPibAttribute::MAC_WRP_PIB_PAN_ID => 0x00000050u32,
        EMacWrpPibAttribute::MAC_WRP_PIB_PROMISCUOUS_MODE => 0x00000051u32,
        EMacWrpPibAttribute::MAC_WRP_PIB_SHORT_ADDRESS => 0x00000053u32,
        EMacWrpPibAttribute::MAC_WRP_PIB_MAX_FRAME_RETRIES => 0x00000059u32,
        EMacWrpPibAttribute::MAC_WRP_PIB_TIMESTAMP_SUPPORTED => 0x0000005Cu32,
        EMacWrpPibAttribute::MAC_WRP_PIB_SECURITY_ENABLED => 0x0000005Du32,
        EMacWrpPibAttribute::MAC_WRP_PIB_KEY_TABLE => 0x00000071u32,
        EMacWrpPibAttribute::MAC_WRP_PIB_FRAME_COUNTER => 0x00000077u32,
        EMacWrpPibAttribute::MAC_WRP_PIB_HIGH_PRIORITY_WINDOW_SIZE => 0x00000100u32,
        EMacWrpPibAttribute::MAC_WRP_PIB_TX_DATA_PACKET_COUNT => 0x00000101u32,
        EMacWrpPibAttribute::MAC_WRP_PIB_RX_DATA_PACKET_COUNT => 0x00000102u32,
        EMacWrpPibAttribute::MAC_WRP_PIB_TX_CMD_PACKET_COUNT => 0x00000103u32,
        EMacWrpPibAttribute::MAC_WRP_PIB_RX_CMD_PACKET_COUNT => 0x00000104u32,
        EMacWrpPibAttribute::MAC_WRP_PIB_CSMA_FAIL_COUNT => 0x00000105u32,
        EMacWrpPibAttribute::MAC_WRP_PIB_CSMA_NO_ACK_COUNT => 0x00000106u32,
        EMacWrpPibAttribute::MAC_WRP_PIB_RX_DATA_BROADCAST_COUNT => 0x00000107u32,
        EMacWrpPibAttribute::MAC_WRP_PIB_TX_DATA_BROADCAST_COUNT => 0x00000108u32,
        EMacWrpPibAttribute::MAC_WRP_PIB_BAD_CRC_COUNT => 0x00000109u32,
        EMacWrpPibAttribute::MAC_WRP_PIB_NEIGHBOUR_TABLE => 0x0000010Au32,
        EMacWrpPibAttribute::MAC_WRP_PIB_FREQ_NOTCHING => 0x0000010Bu32,
        EMacWrpPibAttribute::MAC_WRP_PIB_CSMA_FAIRNESS_LIMIT => 0x0000010Cu32,
        EMacWrpPibAttribute::MAC_WRP_PIB_TMR_TTL => 0x0000010Du32,
        EMacWrpPibAttribute::MAC_WRP_PIB_NEIGHBOUR_TABLE_ENTRY_TTL => 0x0000010Eu32,
        EMacWrpPibAttribute::MAC_WRP_PIB_RC_COORD => 0x0000010Fu32,
        EMacWrpPibAttribute::MAC_WRP_PIB_TONE_MASK => 0x00000110u32,
        EMacWrpPibAttribute::MAC_WRP_PIB_BEACON_RANDOMIZATION_WINDOW_LENGTH => 0x00000111u32,
        EMacWrpPibAttribute::MAC_WRP_PIB_A => 0x00000112u32,
        EMacWrpPibAttribute::MAC_WRP_PIB_K => 0x00000113u32,
        EMacWrpPibAttribute::MAC_WRP_PIB_MIN_CW_ATTEMPTS => 0x00000114u32,
        EMacWrpPibAttribute::MAC_WRP_PIB_CENELEC_LEGACY_MODE => 0x00000115u32,
        EMacWrpPibAttribute::MAC_WRP_PIB_FCC_LEGACY_MODE => 0x00000116u32,
        EMacWrpPibAttribute::MAC_WRP_PIB_BROADCAST_MAX_CW_ENABLE => 0x0000011Eu32,
        EMacWrpPibAttribute::MAC_WRP_PIB_TRANSMIT_ATTEN => 0x0000011Fu32,
        EMacWrpPibAttribute::MAC_WRP_PIB_POS_TABLE => 0x00000120u32,
        EMacWrpPibAttribute::MAC_WRP_PIB_MANUF_DEVICE_TABLE => 0x08000000u32,
        EMacWrpPibAttribute::MAC_WRP_PIB_MANUF_EXTENDED_ADDRESS => 0x08000001u32,
        EMacWrpPibAttribute::MAC_WRP_PIB_MANUF_NEIGHBOUR_TABLE_ELEMENT => 0x08000002u32,
        EMacWrpPibAttribute::MAC_WRP_PIB_MANUF_BAND_INFORMATION => 0x08000003u32,
        EMacWrpPibAttribute::MAC_WRP_PIB_MANUF_COORD_SHORT_ADDRESS => 0x08000004u32,
        EMacWrpPibAttribute::MAC_WRP_PIB_MANUF_MAX_MAC_PAYLOAD_SIZE => 0x08000005u32,
        EMacWrpPibAttribute::MAC_WRP_PIB_MANUF_SECURITY_RESET => 0x08000006u32,
        EMacWrpPibAttribute::MAC_WRP_PIB_MANUF_FORCED_MOD_SCHEME => 0x08000007u32,
        EMacWrpPibAttribute::MAC_WRP_PIB_MANUF_FORCED_MOD_TYPE => 0x08000008u32,
        EMacWrpPibAttribute::MAC_WRP_PIB_MANUF_FORCED_TONEMAP => 0x08000009u32,
        EMacWrpPibAttribute::MAC_WRP_PIB_MANUF_FORCED_MOD_SCHEME_ON_TMRESPONSE => 0x0800000Au32,
        EMacWrpPibAttribute::MAC_WRP_PIB_MANUF_FORCED_MOD_TYPE_ON_TMRESPONSE => 0x0800000Bu32,
        EMacWrpPibAttribute::MAC_WRP_PIB_MANUF_FORCED_TONEMAP_ON_TMRESPONSE => 0x0800000Cu32,
        EMacWrpPibAttribute::MAC_WRP_PIB_MANUF_LAST_RX_MOD_SCHEME => 0x0800000Du32,
        EMacWrpPibAttribute::MAC_WRP_PIB_MANUF_LAST_RX_MOD_TYPE => 0x0800000Eu32,
        EMacWrpPibAttribute::MAC_WRP_PIB_MANUF_LBP_FRAME_RECEIVED => 0x0800000Fu32,
        EMacWrpPibAttribute::MAC_WRP_PIB_MANUF_LNG_FRAME_RECEIVED => 0x08000010u32,
        EMacWrpPibAttribute::MAC_WRP_PIB_MANUF_BCN_FRAME_RECEIVED => 0x08000011u32,
        EMacWrpPibAttribute::MAC_WRP_PIB_MANUF_NEIGHBOUR_TABLE_COUNT => 0x08000012u32,
        EMacWrpPibAttribute::MAC_WRP_PIB_MANUF_RX_OTHER_DESTINATION_COUNT => 0x08000013u32,
        EMacWrpPibAttribute::MAC_WRP_PIB_MANUF_RX_INVALID_FRAME_LENGTH_COUNT => 0x08000014u32,
        EMacWrpPibAttribute::MAC_WRP_PIB_MANUF_RX_MAC_REPETITION_COUNT => 0x08000015u32,
        EMacWrpPibAttribute::MAC_WRP_PIB_MANUF_RX_WRONG_ADDR_MODE_COUNT => 0x08000016u32,
        EMacWrpPibAttribute::MAC_WRP_PIB_MANUF_RX_UNSUPPORTED_SECURITY_COUNT => 0x08000017u32,
        EMacWrpPibAttribute::MAC_WRP_PIB_MANUF_RX_WRONG_KEY_ID_COUNT => 0x08000018u32,
        EMacWrpPibAttribute::MAC_WRP_PIB_MANUF_RX_INVALID_KEY_COUNT => 0x08000019u32,
        EMacWrpPibAttribute::MAC_WRP_PIB_MANUF_RX_WRONG_FC_COUNT => 0x0800001Au32,
        EMacWrpPibAttribute::MAC_WRP_PIB_MANUF_RX_DECRYPTION_ERROR_COUNT => 0x0800001Bu32,
        EMacWrpPibAttribute::MAC_WRP_PIB_MANUF_RX_SEGMENT_DECODE_ERROR_COUNT => 0x0800001Cu32,
        EMacWrpPibAttribute::MAC_WRP_PIB_MANUF_ENABLE_MAC_SNIFFER => 0x0800001Du32,
        EMacWrpPibAttribute::MAC_WRP_PIB_MANUF_POS_TABLE_COUNT => 0x0800001Eu32,
        EMacWrpPibAttribute::MAC_WRP_PIB_MANUF_RETRIES_LEFT_TO_FORCE_ROBO => 0x0800001Fu32,
        EMacWrpPibAttribute::MAC_WRP_PIB_MANUF_MAC_INTERNAL_VERSION => 0x08000021u32,
        EMacWrpPibAttribute::MAC_WRP_PIB_MANUF_MAC_RT_INTERNAL_VERSION => 0x08000022u32,
        EMacWrpPibAttribute::MAC_WRP_PIB_MANUF_PHY_PARAM => 0x08000020u32,
    }
}

/// The `EMacWrpPibAttribute` of a wire value, if there is one.
pub open spec fn spec_e_mac_wrp_pib_attribute_from(v: u32) -> Option<EMacWrpPibAttribute> {
    match v {
        0x00000040u32 => Some(EMacWrpPibAttribute::MAC_WRP_PIB_ACK_WAIT_DURATION),
        0x00000047u32 => Some(EMacWrpPibAttribute::MAC_WRP_PIB_MAX_BE),
        0x00000049u32 => Some(EMacWrpPibAttribute::MAC_WRP_PIB_BSN),
        0x0000004Cu32 => Some(EMacWrpPibAttribute::MAC_WRP_PIB_DSN),
        0x0000004Eu32 => Some(EMacWrpPibAttribute::MAC_WRP_PIB_MAX_CSMA_BACKOFFS),
        0x0000004Fu32 => Some(EMacWrpPibAttribute::MAC_WRP_PIB_MIN_BE),
        0x00000050u32 => Some(EMacWrpPibAttribute::MAC_WRP_PIB_PAN_ID),
        0x00000051u32 => Some(EMacWrpPibAttribute::MAC_WRP_PIB_PROMISCUOUS_MODE),
        0x00000053u32 => Some(EMacWrpPibAttribute::MAC_WRP_PIB_SHORT_ADDRESS),
        0x00000059u32 => Some(EMacWrpPibAttribute::MAC_WRP_PIB_MAX_FRAME_RETRIES),
        0x0000005Cu32 => Some(EMacWrpPibAttribute::MAC_WRP_PIB_TIMESTAMP_SUPPORTED),
        0x0000005Du32 => Some(EMacWrpPibAttribute::MAC_WRP_PIB_SECURITY_ENABLED),
        0x00000071u32 => Some(EMacWrpPibAttribute::MAC_WRP_PIB_KEY_TABLE),
        0x00000077u32 => Some(EMacWrpPibAttribute::MAC_WRP_PIB_FRAME_COUNTER),
        0x00000100u32 => Some(EMacWrpPibAttribute::MAC_WRP_PIB_HIGH_PRIORITY_WINDOW_SIZE),
        0x00000101u32 => Some(EMacWrpPibAttribute::MAC_WRP_PIB_TX_DATA_PACKET_COUNT),
        0x00000102u32 => Some(EMacWrpPibAttribute::MAC_WRP_PIB_RX_DATA_PACKET_COUNT),
        0x00000103u32 => Some(EMacWrpPibAttribute::MAC_WRP_PIB_TX_CMD_PACKET_COUNT),
        0x00000104u32 => Some(EMacWrpPibAttribute::MAC_WRP_PIB_RX_CMD_PACKET_COUNT),
        0x00000105u32 => Some(EMacWrpPibAttribute::MAC_WRP_PIB_CSMA_FAIL_COUNT),
        0x00000106u32 => Some(EMacWrpPibAttribute::MAC_WRP_PIB_CSMA_NO_ACK_COUNT),
        0x00000107u32 => Some(EMacWrpPibAttribute::MAC_WRP_PIB_RX_DATA_BROADCAST_COUNT),
        0x00000108u32 => Some(EMacWrpPibAttribute::MAC_WRP_PIB_TX_DATA_BROADCAST_COUNT),
        0x00000109u32 => Some(EMacWrpPibAttribute::MAC_WRP_PIB_BAD_CRC_COUNT),
        0x0000010Au32 => Some(EMacWrpPibAttribute::MAC_WRP_PIB_NEIGHBOUR_TABLE),
        0x0000010Bu32 => Some(EMacWrpPibAttribute::MAC_WRP_PIB_FREQ_NOTCHING),
        0x0000010Cu32 => Some(EMacWrpPibAttribute::MAC_WRP_PIB_CSMA_FAIRNESS_LIMIT),
        0x0000010Du32 => Some(EMacWrpPibAttribute::MAC_WRP_PIB_TMR_TTL),
        0x0000010Eu32 => Some(EMacWrpPibAttribute::MAC_WRP_PIB_NEIGHBOUR_TABLE_ENTRY_TTL),
        0x0000010Fu32 => Some(EMacWrpPibAttribute::MAC_WRP_PIB_RC_COORD),
        0x00000110u32 => Some(EMacWrpPibAttribute::MAC_WRP_PIB_TONE_MASK),
        0x00000111u32 => Some(EMacWrpPibAttribute::MAC_WRP_PIB_BEACON_RANDOMIZATION_WINDOW_LENGTH),
        0x00000112u32 => Some(EMacWrpPibAttribute::MAC_WRP_PIB_A),
        0x00000113u32 => Some(EMacWrpPibAttribute::MAC_WRP_PIB_K),
        0x00000114u32 => Some(EMacWrpPibAttribute::MAC_WRP_PIB_MIN_CW_ATTEMPTS),
        0x00000115u32 => Some(EMacWrpPibAttribute::MAC_WRP_PIB_CENELEC_LEGACY_MODE),
        0x00000116u32 => Some(EMacWrpPibAttribute::MAC_WRP_PIB_FCC_LEGACY_MODE),
        0x0000011Eu32 => Some(EMacWrpPibAttribute::MAC_WRP_PIB_BROADCAST_MAX_CW_ENABLE),
        0x0000011Fu32 => Some(EMacWrpPibAttribute::MAC_WRP_PIB_TRANSMIT_ATTEN),
        0x00000120u32 => Some(EMacWrpPibAttribute::MAC_WRP_PIB_POS_TABLE),
        0x08000000u32 => Some(EMacWrpPibAttribute::MAC_WRP_PIB_MANUF_DEVICE_TABLE),
        0x08000001u32 => Some(EMacWrpPibAttribute::MAC_WRP_PIB_MANUF_EXTENDED_ADDRESS),
        0x08000002u32 => Some(EMacWrpPibAttribute::MAC_WRP_PIB_MANUF_NEIGHBOUR_TABLE_ELEMENT),
        0x08000003u32 => Some(EMacWrpPibAttribute::MAC_WRP_PIB_MANUF_BAND_INFORMATION),
        0x08000004u32 => Some(EMacWrpPibAttribute::MAC_WRP_PIB_MANUF_COORD_SHORT_ADDRESS),
        0x08000005u32 => Some(EMacWrpPibAttribute::MAC_WRP_PIB_MANUF_MAX_MAC_PAYLOAD_SIZE),
        0x08000006u32 => Some(EMacWrpPibAttribute::MAC_WRP_PIB_MANUF_SECURITY_RESET),
        0x08000007u32 => Some(EMacWrpPibAttribute::MAC_WRP_PIB_MANUF_FORCED_MOD_SCHEME),
        0x08000008u32 => Some(EMacWrpPibAttribute::MAC_WRP_PIB_MANUF_FORCED_MOD_TYPE),
        0x08000009u32 => Some(EMacWrpPibAttribute::MAC_WRP_PIB_MANUF_FORCED_TONEMAP),
        0x0800000Au32 => Some(EMacWrpPibAttribute::MAC_WRP_PIB_MANUF_FORCED_MOD_SCHEME_ON_TMRESPONSE),
        0x0800000Bu32 => Some(EMacWrpPibAttribute::MAC_WRP_PIB_MANUF_FORCED_MOD_TYPE_ON_TMRESPONSE),
        0x0800000Cu32 => Some(EMacWrpPibAttribute::MAC_WRP_PIB_MANUF_FORCED_TONEMAP_ON_TMRESPONSE),
        0x0800000Du32 => Some(EMacWrpPibAttribute::MAC_WRP_PIB_MANUF_LAST_RX_MOD_SCHEME),
        0x0800000Eu32 => Some(EMacWrpPibAttribute::MAC_WRP_PIB_MANUF_LAST_RX_MOD_TYPE),
        0x0800000Fu32 => Some(EMacWrpPibAttribute::MAC_WRP_PIB_MANUF_LBP_FRAME_RECEIVED),
        0x08000010u32 => Some(EMacWrpPibAttribute::MAC_WRP_PIB_MANUF_LNG_FRAME_RECEIVED),
        0x08000011u32 => Some(EMacWrpPibAttribute::MAC_WRP_PIB_MANUF_BCN_FRAME_RECEIVED),
        0x08000012u32 => Some(EMacWrpPibAttribute::MAC_WRP_PIB_MANUF_NEIGHBOUR_TABLE_COUNT),
        0x08000013u32 => Some(EMacWrpPibAttribute::MAC_WRP_PIB_MANUF_RX_OTHER_DESTINATION_COUNT),
        0x08000014u32 => Some(EMacWrpPibAttribute::MAC_WRP_PIB_MANUF_RX_INVALID_FRAME_LENGTH_COUNT),
        0x08000015u32 => Some(EMacWrpPibAttribute::MAC_WRP_PIB_MANUF_RX_MAC_REPETITION_COUNT),
        0x08000016u32 => Some(EMacWrpPibAttribute::MAC_WRP_PIB_MANUF_RX_WRONG_ADDR_MODE_COUNT),
        0x08000017u32 => Some(EMacWrpPibAttribute::MAC_WRP_PIB_MANUF_RX_UNSUPPORTED_SECURITY_COUNT),
        0x08000018u32 => Some(EMacWrpPibAttribute::MAC_WRP_PIB_MANUF_RX_WRONG_KEY_ID_COUNT),
        0x08000019u32 => Some(EMacWrpPibAttribute::MAC_WRP_PIB_MANUF_RX_INVALID_KEY_COUNT),
        0x0800001Au32 => Some(EMacWrpPibAttribute::MAC_WRP_PIB_MANUF_RX_WRONG_FC_COUNT),
        0x0800001Bu32 => Some(EMacWrpPibAttribute::MAC_WRP_PIB_MANUF_RX_DECRYPTION_ERROR_COUNT),
        0x0800001Cu32 => Some(EMacWrpPibAttribute::MAC_WRP_PIB_MANUF_RX_SEGMENT_DECODE_ERROR_COUNT),
        0x0800001Du32 => Some(EMacWrpPibAttribute::MAC_WRP_PIB_MANUF_ENABLE_MAC_SNIFFER),
        0x0800001Eu32 => Some(EMacWrpPibAttribute::MAC_WRP_PIB_MANUF_POS_TABLE_COUNT),
        0x0800001Fu32 => Some(EMacWrpPibAttribute::MAC_WRP_PIB_MANUF_RETRIES_LEFT_TO_FORCE_ROBO),
        0x08000021u32 => Some(EMacWrpPibAttribute::MAC_WRP_PIB_MANUF_MAC_INTERNAL_VERSION),
        0x08000022u32 => Some(EMacWrpPibAttribute::MAC_WRP_PIB_MANUF_MAC_RT_INTERNAL_VERSION),
        0x08000020u32 => Some(EMacWrpPibAttribute::MAC_WRP_PIB_MANUF_PHY_PARAM),
        _ => None,
    }
}

impl EMacWrpPibAttribute {
    pub fn into_primitive(self) -> (r: u32)
        ensures
            r == spec_e_mac_wrp_pib_attribute_value(self),
    {
        match self {
            EMacWrpPibAttribute::MAC_WRP_PIB_ACK_WAIT_DURATION => 0x00000040,
            EMacWrpPibAttribute::MAC_WRP_PIB_MAX_BE => 0x00000047,
            EMacWrpPibAttribute::MAC_WRP_PIB_BSN => 0x00000049,
            EMacWrpPibAttribute::MAC_WRP_PIB_DSN => 0x0000004C,
            EMacWrpPibAttribute::MAC_WRP_PIB_MAX_CSMA_BACKOFFS => 0x0000004E,
            EMacWrpPibAttribute::MAC_WRP_PIB_MIN_BE => 0x0000004F,
            EMacWrpPibAttribute::MAC_WRP_PIB_PAN_ID => 0x00000050,
            EMacWrpPibAttribute::MAC_WRP_PIB_PROMISCUOUS_MODE => 0x00000051,
            EMacWrpPibAttribute::MAC_WRP_PIB_SHORT_ADDRESS => 0x00000053,
            EMacWrpPibAttribute::MAC_WRP_PIB_MAX_FRAME_RETRIES => 0x00000059,
            EMacWrpPibAttribute::MAC_WRP_PIB_TIMESTAMP_SUPPORTED => 0x0000005C,
            EMacWrpPibAttribute::MAC_WRP_PIB_SECURITY_ENABLED => 0x0000005D,
            EMacWrpPibAttribute::MAC_WRP_PIB_KEY_TABLE => 0x00000071,
            EMacWrpPibAttribute::MAC_WRP_PIB_FRAME_COUNTER => 0x00000077,
            EMacWrpPibAttribute::MAC_WRP_PIB_HIGH_PRIORITY_WINDOW_SIZE => 0x00000100,
            EMacWrpPibAttribute::MAC_WRP_PIB_TX_DATA_PACKET_COUNT => 0x00000101,
            EMacWrpPibAttribute::MAC_WRP_PIB_RX_DATA_PACKET_COUNT => 0x00000102,
            EMacWrpPibAttribute::MAC_WRP_PIB_TX_CMD_PACKET_COUNT => 0x00000103,
            EMacWrpPibAttribute::MAC_WRP_PIB_RX_CMD_PACKET_COUNT => 0x00000104,
            EMacWrpPibAttribute::MAC_WRP_PIB_CSMA_FAIL_COUNT => 0x00000105,
            EMacWrpPibAttribute::MAC_WRP_PIB_CSMA_NO_ACK_COUNT => 0x00000106,
            EMacWrpPibAttribute::MAC_WRP_PIB_RX_DATA_BROADCAST_COUNT => 0x00000107,
            EMacWrpPibAttribute::MAC_WRP_PIB_TX_DATA_BROADCAST_COUNT => 0x00000108,
            EMacWrpPibAttribute::MAC_WRP_PIB_BAD_CRC_COUNT => 0x00000109,
            EMacWrpPibAttribute::MAC_WRP_PIB_NEIGHBOUR_TABLE => 0x0000010A,
            EMacWrpPibAttribute::MAC_WRP_PIB_FREQ_NOTCHING => 0x0000010B,
            EMacWrpPibAttribute::MAC_WRP_PIB_CSMA_FAIRNESS_LIMIT => 0x0000010C,
            EMacWrpPibAttribute::MAC_WRP_PIB_TMR_TTL => 0x0000010D,
            EMacWrpPibAttribute::MAC_WRP_PIB_NEIGHBOUR_TABLE_ENTRY_TTL => 0x0000010E,
            EMacWrpPibAttribute::MAC_WRP_PIB_RC_COORD => 0x0000010F,
            EMacWrpPibAttribute::MAC_WRP_PIB_TONE_MASK => 0x00000110,
            EMacWrpPibAttribute::MAC_WRP_PIB_BEACON_RANDOMIZATION_WINDOW_LENGTH => 0x00000111,
            EMacWrpPibAttribute::MAC_WRP_PIB_A => 0x00000112,
            EMacWrpPibAttribute::MAC_WRP_PIB_K => 0x00000113,
            EMacWrpPibAttribute::MAC_WRP_PIB_MIN_CW_ATTEMPTS => 0x00000114,
            EMacWrpPibAttribute::MAC_WRP_PIB_CENELEC_LEGACY_MODE => 0x00000115,
            EMacWrpPibAttribute::MAC_WRP_PIB_FCC_LEGACY_MODE => 0x00000116,
            EMacWrpPibAttribute::MAC_WRP_PIB_BROADCAST_MAX_CW_ENABLE => 0x0000011E,
            EMacWrpPibAttribute::MAC_WRP_PIB_TRANSMIT_ATTEN => 0x0000011F,
            EMacWrpPibAttribute::MAC_WRP_PIB_POS_TABLE => 0x00000120,
            EMacWrpPibAttribute::MAC_WRP_PIB_MANUF_DEVICE_TABLE => 0x08000000,
            EMacWrpPibAttribute::MAC_WRP_PIB_MANUF_EXTENDED_ADDRESS => 0x08000001,
            EMacWrpPibAttribute::MAC_WRP_PIB_MANUF_NEIGHBOUR_TABLE_ELEMENT => 0x08000002,
            EMacWrpPibAttribute::MAC_WRP_PIB_MANUF_BAND_INFORMATION => 0x08000003,
            EMacWrpPibAttribute::MAC_WRP_PIB_MANUF_COORD_SHORT_ADDRESS => 0x08000004,
            EMacWrpPibAttribute::MAC_WRP_PIB_MANUF_MAX_MAC_PAYLOAD_SIZE => 0x08000005,
            EMacWrpPibAttribute::MAC_WRP_PIB_MANUF_SECURITY_RESET => 0x08000006,
            EMacWrpPibAttribute::MAC_WRP_PIB_MANUF_FORCED_MOD_SCHEME => 0x08000007,
            EMacWrpPibAttribute::MAC_WRP_PIB_MANUF_FORCED_MOD_TYPE => 0x08000008,
            EMacWrpPibAttribute::MAC_WRP_PIB_MANUF_FORCED_TONEMAP => 0x08000009,
            EMacWrpPibAttribute::MAC_WRP_PIB_MANUF_FORCED_MOD_SCHEME_ON_TMRESPONSE => 0x0800000A,
            EMacWrpPibAttribute::MAC_WRP_PIB_MANUF_FORCED_MOD_TYPE_ON_TMRESPONSE => 0x0800000B,
            EMacWrpPibAttribute::MAC_WRP_PIB_MANUF_FORCED_TONEMAP_ON_TMRESPONSE => 0x0800000C,
            EMacWrpPibAttribute::MAC_WRP_PIB_MANUF_LAST_RX_MOD_SCHEME => 0x0800000D,
            EMacWrpPibAttribute::MAC_WRP_PIB_MANUF_LAST_RX_MOD_TYPE => 0x0800000E,
            EMacWrpPibAttribute::MAC_WRP_PIB_MANUF_LBP_FRAME_RECEIVED => 0x0800000F,
            EMacWrpPibAttribute::MAC_WRP_PIB_MANUF_LNG_FRAME_RECEIVED => 0x08000010,
            EMacWrpPibAttribute::MAC_WRP_PIB_MANUF_BCN_FRAME_RECEIVED => 0x08000011,
            EMacWrpPibAttribute::MAC_WRP_PIB_MANUF_NEIGHBOUR_TABLE_COUNT => 0x08000012,
            EMacWrpPibAttribute::MAC_WRP_PIB_MANUF_RX_OTHER_DESTINATION_COUNT => 0x08000013,
            EMacWrpPibAttribute::MAC_WRP_PIB_MANUF_RX_INVALID_FRAME_LENGTH_COUNT => 0x08000014,
            EMacWrpPibAttribute::MAC_WRP_PIB_MANUF_RX_MAC_REPETITION_COUNT => 0x08000015,
            EMacWrpPibAttribute::MAC_WRP_PIB_MANUF_RX_WRONG_ADDR_MODE_COUNT => 0x08000016,
            EMacWrpPibAttribute::MAC_WRP_PIB_MANUF_RX_UNSUPPORTED_SECURITY_COUNT => 0x08000017,
            EMacWrpPibAttribute::MAC_WRP_PIB_MANUF_RX_WRONG_KEY_ID_COUNT => 0x08000018,
            EMacWrpPibAttribute::MAC_WRP_PIB_MANUF_RX_INVALID_KEY_COUNT => 0x08000019,
            EMacWrpPibAttribute::MAC_WRP_PIB_MANUF_RX_WRONG_FC_COUNT => 0x0800001A,
            EMacWrpPibAttribute::MAC_WRP_PIB_MANUF_RX_DECRYPTION_ERROR_COUNT => 0x0800001B,
            EMacWrpPibAttribute::MAC_WRP_PIB_MANUF_RX_SEGMENT_DECODE_ERROR_COUNT => 0x0800001C,
            EMacWrpPibAttribute::MAC_WRP_PIB_MANUF_ENABLE_MAC_SNIFFER => 0x0800001D,
            EMacWrpPibAttribute::MAC_WRP_PIB_MANUF_POS_TABLE_COUNT => 0x0800001E,
            EMacWrpPibAttribute::MAC_WRP_PIB_MANUF_RETRIES_LEFT_TO_FORCE_ROBO => 0x0800001F,
            EMacWrpPibAttribute::MAC_WRP_PIB_MANUF_MAC_INTERNAL_VERSION => 0x08000021,
            EMacWrpPibAttribute::MAC_WRP_PIB_MANUF_MAC_RT_INTERNAL_VERSION => 0x08000022,
            EMacWrpPibAttribute::MAC_WRP_PIB_MANUF_PHY_PARAM => 0x08000020,
        }
    }

    pub fn try_from_primitive(v: u32) -> (r: Option<EMacWrpPibAttribute>)
        ensures
            r == spec_e_mac_wrp_pib_attribute_from(v),
    {
        match v {
            0x00000040 => Some(EMacWrpPibAttribute::MAC_WRP_PIB_ACK_WAIT_DURATION),
            0x00000047 => Some(EMacWrpPibAttribute::MAC_WRP_PIB_MAX_BE),
            0x00000049 => Some(EMacWrpPibAttribute::MAC_WRP_PIB_BSN),
            0x0000004C => Some(EMacWrpPibAttribute::MAC_WRP_PIB_DSN),
            0x0000004E => Some(EMacWrpPibAttribute::MAC_WRP_PIB_MAX_CSMA_BACKOFFS),
            0x0000004F => Some(EMacWrpPibAttribute::MAC_WRP_PIB_MIN_BE),
            0x00000050 => Some(EMacWrpPibAttribute::MAC_WRP_PIB_PAN_ID),
            0x00000051 => Some(EMacWrpPibAttribute::MAC_WRP_PIB_PROMISCUOUS_MODE),
            0x00000053 => Some(EMacWrpPibAttribute::MAC_WRP_PIB_SHORT_ADDRESS),
            0x00000059 => Some(EMacWrpPibAttribute::MAC_WRP_PIB_MAX_FRAME_RETRIES),
            0x0000005C => Some(EMacWrpPibAttribute::MAC_WRP_PIB_TIMESTAMP_SUPPORTED),
            0x0000005D => Some(EMacWrpPibAttribute::MAC_WRP_PIB_SECURITY_ENABLED),
            0x00000071 => Some(EMacWrpPibAttribute::MAC_WRP_PIB_KEY_TABLE),
            0x00000077 => Some(EMacWrpPibAttribute::MAC_WRP_PIB_FRAME_COUNTER),
            0x00000100 => Some(EMacWrpPibAttribute::MAC_WRP_PIB_HIGH_PRIORITY_WINDOW_SIZE),
            0x00000101 => Some(EMacWrpPibAttribute::MAC_WRP_PIB_TX_DATA_PACKET_COUNT),
            0x00000102 => Some(EMacWrpPibAttribute::MAC_WRP_PIB_RX_DATA_PACKET_COUNT),
            0x00000103 => Some(EMacWrpPibAttribute::MAC_WRP_PIB_TX_CMD_PACKET_COUNT),
            0x00000104 => Some(EMacWrpPibAttribute::MAC_WRP_PIB_RX_CMD_PACKET_COUNT),
            0x00000105 => Some(EMacWrpPibAttribute::MAC_WRP_PIB_CSMA_FAIL_COUNT),
            0x00000106 => Some(EMacWrpPibAttribute::MAC_WRP_PIB_CSMA_NO_ACK_COUNT),
            0x00000107 => Some(EMacWrpPibAttribute::MAC_WRP_PIB_RX_DATA_BROADCAST_COUNT),
            0x00000108 => Some(EMacWrpPibAttribute::MAC_WRP_PIB_TX_DATA_BROADCAST_COUNT),
            0x00000109 => Some(EMacWrpPibAttribute::MAC_WRP_PIB_BAD_CRC_COUNT),
            0x0000010A => Some(EMacWrpPibAttribute::MAC_WRP_PIB_NEIGHBOUR_TABLE),
            0x0000010B => Some(EMacWrpPibAttribute::MAC_WRP_PIB_FREQ_NOTCHING),
            0x0000010C => Some(EMacWrpPibAttribute::MAC_WRP_PIB_CSMA_FAIRNESS_LIMIT),
            0x0000010D => Some(EMacWrpPibAttribute::MAC_WRP_PIB_TMR_TTL),
            0x0000010E => Some(EMacWrpPibAttribute::MAC_WRP_PIB_NEIGHBOUR_TABLE_ENTRY_TTL),
            0x0000010F => Some(EMacWrpPibAttribute::MAC_WRP_PIB_RC_COORD),
            0x00000110 => Some(EMacWrpPibAttribute::MAC_WRP_PIB_TONE_MASK),
            0x00000111 => Some(EMacWrpPibAttribute::MAC_WRP_PIB_BEACON_RANDOMIZATION_WINDOW_LENGTH),
            0x00000112 => Some(EMacWrpPibAttribute::MAC_WRP_PIB_A),
            0x00000113 => Some(EMacWrpPibAttribute::MAC_WRP_PIB_K),
            0x00000114 => Some(EMacWrpPibAttribute::MAC_WRP_PIB_MIN_CW_ATTEMPTS),
            0x00000115 => Some(EMacWrpPibAttribute::MAC_WRP_PIB_CENELEC_LEGACY_MODE),
            0x00000116 => Some(EMacWrpPibAttribute::MAC_WRP_PIB_FCC_LEGACY_MODE),
            0x0000011E => Some(EMacWrpPibAttribute::MAC_WRP_PIB_BROADCAST_MAX_CW_ENABLE),
            0x0000011F => Some(EMacWrpPibAttribute::MAC_WRP_PIB_TRANSMIT_ATTEN),
            0x00000120 => Some(EMacWrpPibAttribute::MAC_WRP_PIB_POS_TABLE),
            0x08000000 => Some(EMacWrpPibAttribute::MAC_WRP_PIB_MANUF_DEVICE_TABLE),
            0x08000001 => Some(EMacWrpPibAttribute::MAC_WRP_PIB_MANUF_EXTENDED_ADDRESS),
            0x08000002 => Some(EMacWrpPibAttribute::MAC_WRP_PIB_MANUF_NEIGHBOUR_TABLE_ELEMENT),
            0x08000003 => Some(EMacWrpPibAttribute::MAC_WRP_PIB_MANUF_BAND_INFORMATION),
            0x08000004 => Some(EMacWrpPibAttribute::MAC_WRP_PIB_MANUF_COORD_SHORT_ADDRESS),
            0x08000005 => Some(EMacWrpPibAttribute::MAC_WRP_PIB_MANUF_MAX_MAC_PAYLOAD_SIZE),
            0x08000006 => Some(EMacWrpPibAttribute::MAC_WRP_PIB_MANUF_SECURITY_RESET),
            0x08000007 => Some(EMacWrpPibAttribute::MAC_WRP_PIB_MANUF_FORCED_MOD_SCHEME),
            0x08000008 => Some(EMacWrpPibAttribute::MAC_WRP_PIB_MANUF_FORCED_MOD_TYPE),
            0x08000009 => Some(EMacWrpPibAttribute::MAC_WRP_PIB_MANUF_FORCED_TONEMAP),
            0x0800000A => Some(EMacWrpPibAttribute::MAC_WRP_PIB_MANUF_FORCED_MOD_SCHEME_ON_TMRESPONSE),
            0x0800000B => Some(EMacWrpPibAttribute::MAC_WRP_PIB_MANUF_FORCED_MOD_TYPE_ON_TMRESPONSE),
            0x0800000C => Some(EMacWrpPibAttribute::MAC_WRP_PIB_MANUF_FORCED_TONEMAP_ON_TMRESPONSE),
            0x0800000D => Some(EMacWrpPibAttribute::MAC_WRP_PIB_MANUF_LAST_RX_MOD_SCHEME),
            0x0800000E => Some(EMacWrpPibAttribute::MAC_WRP_PIB_MANUF_LAST_RX_MOD_TYPE),
            0x0800000F => Some(EMacWrpPibAttribute::MAC_WRP_PIB_MANUF_LBP_FRAME_RECEIVED),
            0x08000010 => Some(EMacWrpPibAttribute::MAC_WRP_PIB_MANUF_LNG_FRAME_RECEIVED),
            0x08000011 => Some(EMacWrpPibAttribute::MAC_WRP_PIB_MANUF_BCN_FRAME_RECEIVED),
            0x08000012 => Some(EMacWrpPibAttribute::MAC_WRP_PIB_MANUF_NEIGHBOUR_TABLE_COUNT),
            0x08000013 => Some(EMacWrpPibAttribute::MAC_WRP_PIB_MANUF_RX_OTHER_DESTINATION_COUNT),
            0x08000014 => Some(EMacWrpPibAttribute::MAC_WRP_PIB_MANUF_RX_INVALID_FRAME_LENGTH_COUNT),
            0x08000015 => Some(EMacWrpPibAttribute::MAC_WRP_PIB_MANUF_RX_MAC_REPETITION_COUNT),
            0x08000016 => Some(EMacWrpPibAttribute::MAC_WRP_PIB_MANUF_RX_WRONG_ADDR_MODE_COUNT),
            0x08000017 => Some(EMacWrpPibAttribute::MAC_WRP_PIB_MANUF_RX_UNSUPPORTED_SECURITY_COUNT),
            0x08000018 => Some(EMacWrpPibAttribute::MAC_WRP_PIB_MANUF_RX_WRONG_KEY_ID_COUNT),
            0x08000019 => Some(EMacWrpPibAttribute::MAC_WRP_PIB_MANUF_RX_INVALID_KEY_COUNT),
            0x0800001A => Some(EMacWrpPibAttribute::MAC_WRP_PIB_MANUF_RX_WRONG_FC_COUNT),
            0x0800001B => Some(EMacWrpPibAttribute::MAC_WRP_PIB_MANUF_RX_DECRYPTION_ERROR_COUNT),
            0x0800001C => Some(EMacWrpPibAttribute::MAC_WRP_PIB_MANUF_RX_SEGMENT_DECODE_ERROR_COUNT),
            0x0800001D => Some(EMacWrpPibAttribute::MAC_WRP_PIB_MANUF_ENABLE_MAC_SNIFFER),
            0x0800001E => Some(EMacWrpPibAttribute::MAC_WRP_PIB_MANUF_POS_TABLE_COUNT),
            0x0800001F => Some(EMacWrpPibAttribute::MAC_WRP_PIB_MANUF_RETRIES_LEFT_TO_FORCE_ROBO),
            0x08000021 => Some(EMacWrpPibAttribute::MAC_WRP_PIB_MANUF_MAC_INTERNAL_VERSION),
            0x08000022 => Some(EMacWrpPibAttribute::MAC_WRP_PIB_MANUF_MAC_RT_INTERNAL_VERSION),
            0x08000020 => Some(EMacWrpPibAttribute::MAC_WRP_PIB_MANUF_PHY_PARAM),
            _ => None,
        }
    }
}

/// Reading back the wire value of a `EMacWrpPibAttribute` gives the same `EMacWrpPibAttribute`.
pub proof fn lemma_e_mac_wrp_pib_attribute_roundtrip(a: EMacWrpPibAttribute)
    ensures
        spec_e_mac_wrp_pib_attribute_from(spec_e_mac_wrp_pib_attribute_value(a)) == Some(a),
{
}

/// A wire value that names a `EMacWrpPibAttribute` is that one's value.
pub proof fn lemma_e_mac_wrp_pib_attribute_from_value(v: u32)
    ensures
        spec_e_mac_wrp_pib_attribute_from(v) matches Some(a) ==> spec_e_mac_wrp_pib_attribute_value(a) == v,
{
}

/// Status codes of the G3 stack.
#[derive(Clone, Copy, Debug, PartialEq, Eq, Structural, Hash)]
pub enum EAdpStatus {
    G3_SUCCESS,
    G3_INVALID_REQUEST,
    G3_FAILED,
    G3_INVALID_IPV6_FRAME,
    G3_NOT_PERMITED,
    G3_ROUTE_ERROR,
    G3_TIMEOUT,
    G3_INVALID_INDEX,
    G3_INVALID_PARAMETER,
    G3_NO_BEACON,
    G3_READ_ONLY,
    G3_UNSUPPORTED_ATTRIBUTE,
    G3_INCOMPLETE_PATH,
    G3_BUSY,
    G3_NO_BUFFERS,
    G3_ERROR_INTERNAL,
}

/// The wire value of each `EAdpStatus`.
pub open spec fn spec_e_adp_status_value(a: EAdpStatus) -> u8 {
    match a {
        EAdpStatus::G3_SUCCESS => 0x00u8,
        EAdpStatus::G3_INVALID_REQUEST => 0xA1u8,
        EAdpStatus::G3_FAILED => 0xA2u8,
        EAdpStatus::G3_INVALID_IPV6_FRAME => 0xA3u8,
        EAdpStatus::G3_NOT_PERMITED => 0xA4u8,
        EAdpStatus::G3_ROUTE_ERROR => 0xA5u8,
        EAdpStatus::G3_TIMEOUT => 0xA6u8,
        EAdpStatus::G3_INVALID_INDEX => 0xA7u8,
        EAdpStatus::G3_INVALID_PARAMETER => 0xA8u8,
        EAdpStatus::G3_NO_BEACON => 0xA9u8,
        EAdpStatus::G3_READ_ONLY => 0xB0u8,
        EAdpStatus::G3_UNSUPPORTED_ATTRIBUTE => 0xB1u8,
        EAdpStatus::G3_INCOMPLETE_PATH => 0xB2u8,
        EAdpStatus::G3_BUSY => 0xB3u8,
        EAdpStatus::G3_NO_BUFFERS => 0xB4u8,
        EAdpStatus::G3_ERROR_INTERNAL => 0xFFu8,
    }
}

/// The `EAdpStatus` of a wire value, if there is one.
pub open spec fn spec_e_adp_status_from(v: u8) -> Option<EAdpStatus> {
    match v {
        0x00u8 => Some(EAdpStatus::G3_SUCCESS),
        0xA1u8 => Some(EAdpStatus::G3_INVALID_REQUEST),
        0xA2u8 => Some(EAdpStatus::G3_FAILED),
        0xA3u8 => Some(EAdpStatus::G3_INVALID_IPV6_FRAME),
        0xA4u8 => Some(EAdpStatus::G3_NOT_PERMITED),
        0xA5u8 => Some(EAdpStatus::G3_ROUTE_ERROR),
        0xA6u8 => Some(EAdpStatus::G3_TIMEOUT),
        0xA7u8 => Some(EAdpStatus::G3_INVALID_INDEX),
        0xA8u8 => Some(EAdpStatus::G3_INVALID_PARAMETER),
        0xA9u8 => Some(EAdpStatus::G3_NO_BEACON),
        0xB0u8 => Some(EAdpStatus::G3_READ_ONLY),
        0xB1u8 => Some(EAdpStatus::G3_UNSUPPORTED_ATTRIBUTE),
        0xB2u8 => Some(EAdpStatus::G3_INCOMPLETE_PATH),
        0xB3u8 => Some(EAdpStatus::G3_BUSY),
        0xB4u8 => Some(EAdpStatus::G3_NO_BUFFERS),
        0xFFu8 => Some(EAdpStatus::G3_ERROR_INTERNAL),
        _ => None,
    }
}

impl EAdpStatus {
    pub fn into_primitive(self) -> (r: u8)
        ensures
            r == spec_e_adp_status_value(self),
    {
        match self {
            EAdpStatus::G3_SUCCESS => 0x00,
            EAdpStatus::G3_INVALID_REQUEST => 0xA1,
            EAdpStatus::G3_FAILED => 0xA2,
            EAdpStatus::G3_INVALID_IPV6_FRAME => 0xA3,
            EAdpStatus::G3_NOT_PERMITED => 0xA4,
            EAdpStatus::G3_ROUTE_ERROR => 0xA5,
            EAdpStatus::G3_TIMEOUT => 0xA6,
            EAdpStatus::G3_INVALID_INDEX => 0xA7,
            EAdpStatus::G3_INVALID_PARAMETER => 0xA8,
            EAdpStatus::G3_NO_BEACON => 0xA9,
            EAdpStatus::G3_READ_ONLY => 0xB0,
            EAdpStatus::G3_UNSUPPORTED_ATTRIBUTE => 0xB1,
            EAdpStatus::G3_INCOMPLETE_PATH => 0xB2,
            EAdpStatus::G3_BUSY => 0xB3,
            EAdpStatus::G3_NO_BUFFERS => 0xB4,
            EAdpStatus::G3_ERROR_INTERNAL => 0xFF,
        }
    }

    pub fn try_from_primitive(v: u8) -> (r: Option<EAdpStatus>)
        ensures
            r == spec_e_adp_status_from(v),
    {
        match v {
            0x00 => Some(EAdpStatus::G3_SUCCESS),
            0xA1 => Some(EAdpStatus::G3_INVALID_REQUEST),
            0xA2 => Some(EAdpStatus::G3_FAILED),
            0xA3 => Some(EAdpStatus::G3_INVALID_IPV6_FRAME),
            0xA4 => Some(EAdpStatus::G3_NOT_PERMITED),
            0xA5 => Some(EAdpStatus::G3_ROUTE_ERROR),
            0xA6 => Some(EAdpStatus::G3_TIMEOUT),
            0xA7 => Some(EAdpStatus::G3_INVALID_INDEX),
            0xA8 => Some(EAdpStatus::G3_INVALID_PARAMETER),
            0xA9 => Some(EAdpStatus::G3_NO_BEACON),
            0xB0 => Some(EAdpStatus::G3_READ_ONLY),
            0xB1 => Some(EAdpStatus::G3_UNSUPPORTED_ATTRIBUTE),
            0xB2 => Some(EAdpStatus::G3_INCOMPLETE_PATH),
            0xB3 => Some(EAdpStatus::G3_BUSY),
            0xB4 => Some(EAdpStatus::G3_NO_BUFFERS),
            0xFF => Some(EAdpStatus::G3_ERROR_INTERNAL),
            _ => None,
        }
    }
}

/// Reading back the wire value of a `EAdpStatus` gives the same `EAdpStatus`.
pub proof fn lemma_e_adp_status_roundtrip(a: EAdpStatus)
    ensures
        spec_e_adp_status_from(spec_e_adp_status_value(a)) == Some(a),
{
}

/// A wire value that names a `EAdpStatus` is that one's value.
pub proof fn lemma_e_adp_status_from_value(v: u8)
    ensures
        spec_e_adp_status_from(v) matches Some(a) ==> spec_e_adp_status_value(a) == v,
{
}

/// A message decoded from the modem.
#[derive(Debug)]
pub enum Message {
    AdpG3(AdpG3),
}

/// The ADP confirms and indications.
#[derive(Debug)]
pub enum AdpG3 {
    MsgStatusResponse(MsgStatusResponse),
    DataResponse(DataResponse),
    DataEvent(DataEvent),
    NetworkStatusEvent(NetworkStatusEvent),
    DiscoveryResponse(DiscoveryResponse),
    NetworkStartResponse(NetworkStartResponse),
    NetworkJoinResponse(NetworkJoinResponse),
    NetworkLeaveResponse(NetworkLeaveResponse),
    NetworkLeaveEvent(NetworkLeaveEvent),
    ResetResponse(ResetResponse),
    SetResponse(SetResponse),
    GetResponse(GetResponse),
    LbpReponse(LbpReponse),
    LbpEvent(LbpEvent),
    RouteDiscoveryResponse(RouteDiscoveryResponse),
    PathDiscoveryResponse(PathDiscoveryResponse),
    SetMacResponse(SetMacResponse),
    GetMacResponse(GetMacResponse),
    BufferEvent(BufferEvent),
    DiscoveryEvent(DiscoveryEvent),
    PreqEvent(PreqEvent),
    UpdNonVolatileDataEvent(UpdNonVolatileDataEvent),
    RouteNotFoundEvent(RouteNotFoundEvent),
}

/// Big endian value of two bytes.
pub open spec fn be2(a: u8, b: u8) -> int {
    a as int * 256 + b as int
}

/// Big endian value of four bytes.
pub open spec fn be4(a: u8, b: u8, c: u8, d: u8) -> int {
    a as int * 0x1000000 + b as int * 0x10000 + c as int * 0x100 + d as int
}

fn be_u16_of(a: u8, b: u8) -> (r: u16)
    ensures
        r == be2(a, b),
{
    let r = (a as u16) << 8u16 | (b as u16);
    assert(((a as u16) << 8u16 | (b as u16)) == a as u16 * 256 + b as u16) by (bit_vector);
    r
}

fn be_u32_of(a: u8, b: u8, c: u8, d: u8) -> (r: u32)
    ensures
        r == be4(a, b, c, d),
{
    let r = (a as u32) << 24u32 | (b as u32) << 16u32 | (c as u32) << 8u32 | (d as u32);
    assert(((a as u32) << 24u32 | (b as u32) << 16u32 | (c as u32) << 8u32 | (d as u32)) == a
        as u32 * 0x1000000 + b as u32 * 0x10000 + c as u32 * 0x100 + d as u32) by (bit_vector);
    r
}

/// The generic status response of the serial interface.
#[derive(Debug, Clone, Copy, PartialEq, Eq, Structural)]
pub struct MsgStatusResponse {
    pub status: EAdpStatus,
    pub cmd: u8,
}

/// A status response, as the modem sends it: the status in the first byte
/// (which also holds the message code), the command in the second.
pub open spec fn spec_msg_status_response(b: Seq<u8>) -> Option<MsgStatusResponse> {
    if b.len() >= 2 && spec_e_adp_status_from(b[0]) is Some {
        Some(MsgStatusResponse { status: spec_e_adp_status_from(b[0]).unwrap(), cmd: b[1] })
    } else {
        None
    }
}

impl MsgStatusResponse {
    pub fn try_from_message(msg: &usi::InMessage) -> (r: Option<MsgStatusResponse>)
        ensures
            r == spec_msg_status_response(msg.buf@),
    {
        if msg.buf.len() > 0 {
            if let Some(status) = EAdpStatus::try_from_primitive(msg.buf[0]) {
                if msg.buf.len() > 1 {
                    let cmd = msg.buf[1];
                    return Some(MsgStatusResponse { status, cmd });
                }
            }
        }
        None
    }
}

/// Shortest ADP or MAC get confirm, after its message code.
pub const MIN_GET_RESPONSE_LEN: usize = 8;

/// Whether `b` is a get confirm that decodes: nine bytes at least and a known
/// status in the second byte.
pub open spec fn spec_get_response_ok(b: Seq<u8>) -> bool {
    b.len() >= 9 && spec_e_adp_status_from(b[1]) is Some
}

/// The attribute value of a get confirm: all bytes from the tenth on, when the
/// announced length is positive and that many bytes are there; else nothing.
pub open spec fn spec_get_response_value(b: Seq<u8>) -> Seq<u8> {
    if b[8] > 0 && b.len() >= 9 + b[8] {
        b.skip(9)
    } else {
        Seq::empty()
    }
}

/// An ADP get confirm: status, attribute identifier, index, length and value.
#[derive(Debug)]
pub struct GetResponse {
    pub status: EAdpStatus,
    pub attribute_id: u32,
    pub attribute_idx: u16,
    pub attribute_len: u8,
    pub attribute_val: Vec<u8>,
}

impl GetResponse {
    /// Whether this is the decoding of the get confirm `b`.
    pub open spec fn is_decoding_of(&self, b: Seq<u8>) -> bool {
        &&& spec_get_response_ok(b)
        &&& self.status == spec_e_adp_status_from(b[1]).unwrap()
        &&& self.attribute_id == be4(b[2], b[3], b[4], b[5])
        &&& self.attribute_idx == be2(b[6], b[7])
        &&& self.attribute_len == b[8]
        &&& self.attribute_val@ == spec_get_response_value(b)
    }

    pub fn try_from_message(msg: &usi::InMessage) -> (r: Option<GetResponse>)
        ensures
            r is Some <==> spec_get_response_ok(msg.buf@),
            r matches Some(g) ==> g.is_decoding_of(msg.buf@),
    {
        if msg.buf.len() >= MIN_GET_RESPONSE_LEN + 1 {
            if let Some(status) = EAdpStatus::try_from_primitive(msg.buf[1]) {
                let (attribute_id, attribute_idx, attribute_len, attribute_val) =
                    decode_get_fields(&msg.buf);
                return Some(
                    GetResponse { status, attribute_id, attribute_idx, attribute_len, attribute_val },
                );
            }
        }
        None
    }
}

fn decode_get_fields(buf: &Vec<u8>) -> (r: (u32, u16, u8, Vec<u8>))
    requires
        buf.len() >= 9,
    ensures
        r.0 == be4(buf@[2], buf@[3], buf@[4], buf@[5]),
        r.1 == be2(buf@[6], buf@[7]),
        r.2 == buf@[8],
        r.3@ == spec_get_response_value(buf@),
{
    let mut attribute_id: u32 = buf[2] as u32;
    attribute_id = (attribute_id * 256) + buf[3] as u32;
    attribute_id = (attribute_id * 256) + buf[4] as u32;
    attribute_id = (attribute_id * 256) + buf[5] as u32;
    let mut attribute_idx = buf[6] as u16;
    attribute_idx = (attribute_idx * 256) + buf[7] as u16;
    let attribute_len = buf[8];
    let mut attribute_val: Vec<u8> = Vec::new();
    if attribute_len > 0 && buf.len() >= (MIN_GET_RESPONSE_LEN + 1 + attribute_len as usize) {
        attribute_val = vstd::slice::slice_to_vec(
            vstd::slice::slice_subrange(buf.as_slice(), 9, buf.len()),
        );
    }
    assert(attribute_val@ =~= spec_get_response_value(buf@));
    (attribute_id, attribute_idx, attribute_len, attribute_val)
}

/// An ADP MAC get confirm; same layout as `GetResponse`.
#[derive(Debug)]
pub struct GetMacResponse {
    pub status: EAdpStatus,
    pub attribute_id: u32,
    pub attribute_idx: u16,
    pub attribute_len: u8,
    pub attribute_val: Vec<u8>,
}

impl GetMacResponse {
    pub open spec fn is_decoding_of(&self, b: Seq<u8>) -> bool {
        &&& spec_get_response_ok(b)
        &&& self.status == spec_e_adp_status_from(b[1]).unwrap()
        &&& self.attribute_id == be4(b[2], b[3], b[4], b[5])
        &&& self.attribute_idx == be2(b[6], b[7])
        &&& self.attribute_len == b[8]
        &&& self.attribute_val@ == spec_get_response_value(b)
    }

    pub fn try_from_message(msg: &usi::InMessage) -> (r: Option<GetMacResponse>)
        ensures
            r is Some <==> spec_get_response_ok(msg.buf@),
            r matches Some(g) ==> g.is_decoding_of(msg.buf@),
    {
        if msg.buf.len() >= MIN_GET_RESPONSE_LEN + 1 {
            if let Some(status) = EAdpStatus::try_from_primitive(msg.buf[1]) {
                let (attribute_id, attribute_idx, attribute_len, attribute_val) =
                    decode_get_fields(&msg.buf);
                return Some(
                    GetMacResponse {
                        status,
                        attribute_id,
                        attribute_idx,
                        attribute_len,
                        attribute_val,
                    },
                );
            }
        }
        None
    }
}

/// LBP confirm: the handle of the LBP request that it confirms, and its
/// status.
#[derive(Debug, Clone, Copy, PartialEq, Eq, Structural)]
pub struct LbpReponse {
    pub handle: u8,
    pub status: EAdpStatus,
}

/// LBP indication: the LBP frame that was received.
#[derive(Debug)]
pub struct LbpEvent {
    pub nsdu: Vec<u8>,
}

#[derive(Debug)]
pub struct RouteDiscoveryResponse {}

#[derive(Debug)]
pub struct PathDiscoveryResponse {}

/// Buffer indication: whether the modem can take more data requests.
#[derive(Debug, Clone, Copy, PartialEq, Eq, Structural)]
pub struct BufferEvent {
    pub buffer_ready: bool,
}

/// Length of a discovery indication after its message code.
pub const DISCOVERY_EVENT_LEN: usize = 7;

/// A discovery indication: one PAN found.
#[derive(Debug, Clone, Copy, PartialEq, Eq, Structural)]
pub struct DiscoveryEvent {
    pub pan_descriptor: TAdpPanDescriptor,
}

/// A discovery indication has exactly eight bytes: the message code, then the
/// PAN identifier, link quality, LBA address and route cost, big endian.
pub open spec fn spec_discovery_event(b: Seq<u8>) -> Option<DiscoveryEvent> {
    if b.len() == 8 {
        Some(
            DiscoveryEvent {
                pan_descriptor: TAdpPanDescriptor {
                    pan_id: be2(b[1], b[2]) as u16,
                    link_quality: b[3],
                    lba_address: be2(b[4], b[5]) as u16,
                    rc_coord: be2(b[6], b[7]) as u16,
                },
            },
        )
    } else {
        None
    }
}

impl DiscoveryEvent {
    pub fn try_from_message(msg: &usi::InMessage) -> (r: Option<DiscoveryEvent>)
        ensures
            r == spec_discovery_event(msg.buf@),
    {
        if msg.buf.len() == DISCOVERY_EVENT_LEN + 1 {
            let pan_id = be_u16_of(msg.buf[1], msg.buf[2]);
            let link_quality = msg.buf[3];
            let lba_address = be_u16_of(msg.buf[4], msg.buf[5]);
            let rc_coord = be_u16_of(msg.buf[6], msg.buf[7]);
            return Some(
                DiscoveryEvent {
                    pan_descriptor: TAdpPanDescriptor {
                        pan_id,
                        link_quality,
                        lba_address,
                        rc_coord,
                    },
                },
            );
        }
        None
    }
}

#[derive(Debug)]
pub struct PreqEvent {}

#[derive(Debug)]
pub struct UpdNonVolatileDataEvent {}

#[derive(Debug)]
pub struct RouteNotFoundEvent {}

/// Network join confirm: the status and the short address obtained.
#[derive(Debug, Clone, Copy, PartialEq, Eq, Structural)]
pub struct NetworkJoinResponse {
    pub status: EAdpStatus,
    pub network_addr: u16,
}

#[derive(Debug)]
pub struct NetworkLeaveEvent {}

#[derive(Debug)]
pub struct NetworkLeaveResponse {}

#[derive(Debug)]
pub struct ResetResponse {}

/// Length of a set confirm after its message code.
pub const SET_RESPONSE_LEN: usize = 7;

/// MAC set confirm: status, attribute identifier and index.
#[derive(Debug, Clone, Copy, PartialEq, Eq, Structural)]
pub struct SetMacResponse {
    pub status: EAdpStatus,
    pub attribute_id: u32,
    pub attribute_idx: u16,
}

/// A set confirm has exactly eight bytes: the message code, the status, the
/// attribute identifier (four bytes) and index (two bytes), big endian.
pub open spec fn spec_set_fields(b: Seq<u8>) -> Option<(EAdpStatus, u32, u16)> {
    if b.len() == 8 && spec_e_adp_status_from(b[1]) is Some {
        Some(
            (
                spec_e_adp_status_from(b[1]).unwrap(),
                be4(b[2], b[3], b[4], b[5]) as u32,
                be2(b[6], b[7]) as u16,
            ),
        )
    } else {
        None
    }
}

pub open spec fn spec_set_mac_response(b: Seq<u8>) -> Option<SetMacResponse> {
    match spec_set_fields(b) {
        Some((status, attribute_id, attribute_idx)) => Some(
            SetMacResponse { status, attribute_id, attribute_idx },
        ),
        None => None,
    }
}

fn decode_set_fields(buf: &Vec<u8>) -> (r: Option<(EAdpStatus, u32, u16)>)
    ensures
        r == spec_set_fields(buf@),
{
    if buf.len() == SET_RESPONSE_LEN + 1 {
        if let Some(status) = EAdpStatus::try_from_primitive(buf[1]) {
            let id = be_u32_of(buf[2], buf[3], buf[4], buf[5]);
            let idx = be_u16_of(buf[6], buf[7]);
            return Some((status, id, idx));
        }
    }
    None
}

impl SetMacResponse {
    pub fn try_from_message(msg: &usi::InMessage) -> (r: Option<SetMacResponse>)
        ensures
            r == spec_set_mac_response(msg.buf@),
    {
        match decode_set_fields(&msg.buf) {
            Some((status, attribute_id, attribute_idx)) => Some(
                SetMacResponse { status, attribute_id, attribute_idx },
            ),
            None => None,
        }
    }
}

/// ADP set confirm: status, attribute identifier and index.
#[derive(Debug, Clone, Copy, PartialEq, Eq, Structural)]
pub struct SetResponse {
    pub status: EAdpStatus,
    pub attribute_id: u32,
    pub attribute_idx: u16,
}

pub open spec fn spec_set_response(b: Seq<u8>) -> Option<SetResponse> {
    match spec_set_fields(b) {
        Some((status, attribute_id, attribute_idx)) => Some(
            SetResponse { status, attribute_id, attribute_idx },
        ),
        None => None,
    }
}

impl SetResponse {
    pub fn try_from_message(msg: &usi::InMessage) -> (r: Option<SetResponse>)
        ensures
            r == spec_set_response(msg.buf@),
    {
        match decode_set_fields(&msg.buf) {
            Some((status, attribute_id, attribute_idx)) => Some(
                SetResponse { status, attribute_id, attribute_idx },
            ),
            None => None,
        }
    }
}

/// The status of a confirm that has a status in its second byte.
pub open spec fn spec_second_byte_status(b: Seq<u8>) -> Option<EAdpStatus> {
    if b.len() > 1 {
        spec_e_adp_status_from(b[1])
    } else {
        None
    }
}

/// Network start confirm.
#[derive(Debug, Clone, Copy, PartialEq, Eq, Structural)]
pub struct NetworkStartResponse {
    pub status: EAdpStatus,
}

impl NetworkStartResponse {
    pub fn try_from_message(msg: &usi::InMessage) -> (r: Option<NetworkStartResponse>)
        ensures
            r matches Some(s) ==> spec_second_byte_status(msg.buf@) == Some(s.status),
            r is None ==> spec_second_byte_status(msg.buf@) is None,
    {
        if msg.buf.len() > 1 {
            if let Some(status) = EAdpStatus::try_from_primitive(msg.buf[1]) {
                return Some(NetworkStartResponse { status });
            }
        }
        None
    }
}

/// Discovery confirm.
#[derive(Debug, Clone, Copy, PartialEq, Eq, Structural)]
pub struct DiscoveryResponse {
    pub status: EAdpStatus,
}

impl DiscoveryResponse {
    pub fn try_from_message(msg: &usi::InMessage) -> (r: Option<DiscoveryResponse>)
        ensures
            r matches Some(s) ==> spec_second_byte_status(msg.buf@) == Some(s.status),
            r is None ==> spec_second_byte_status(msg.buf@) is None,
    {
        if msg.buf.len() > 1 {
            if let Some(status) = EAdpStatus::try_from_primitive(msg.buf[1]) {
                return Some(DiscoveryResponse { status });
            }
        }
        None
    }
}

#[derive(Debug)]
pub struct NetworkStatusEvent {}

/// Data confirm: the status and the handle of the data request.
#[derive(Debug, Clone, Copy, PartialEq, Eq, Structural)]
pub struct DataResponse {
    pub status: EAdpStatus,
    pub nsdu_handle: u8,
}

pub open spec fn spec_data_response(b: Seq<u8>) -> Option<DataResponse> {
    if b.len() >= 3 && spec_e_adp_status_from(b[1]) is Some {
        Some(DataResponse { status: spec_e_adp_status_from(b[1]).unwrap(), nsdu_handle: b[2] })
    } else {
        None
    }
}

impl DataResponse {
    pub fn try_from_message(msg: &usi::InMessage) -> (r: Option<DataResponse>)
        ensures
            r == spec_data_response(msg.buf@),
    {
        if msg.buf.len() > 2 {
            let status8 = msg.buf[1];
            let nsdu_handle = msg.buf[2];
            if let Some(status) = EAdpStatus::try_from_primitive(status8) {
                return Some(DataResponse { status, nsdu_handle });
            }
        }
        None
    }
}

/// Data indication: the received network data unit and its link quality.
#[derive(Debug)]
pub struct DataEvent {
    pub nsdu: Vec<u8>,
    pub link_quality_indicator: u8,
}

/// Whether `usi_message_to_message` decodes the frame content `b`: by its
/// first byte, the message code, one of the confirms and indications that it
/// knows, which must decode.
pub open spec fn spec_adp_decodes(b: Seq<u8>) -> bool {
    b.len() > 0 && {
        let c = b[0];
        ||| c == G3_SERIAL_MSG_ADP_DATA_CONFIRM && spec_data_response(b) is Some
        ||| c == G3_SERIAL_MSG_ADP_SET_CONFIRM && spec_set_response(b) is Some
        ||| c == G3_SERIAL_MSG_ADP_MAC_SET_CONFIRM && spec_set_mac_response(b) is Some
        ||| c == G3_SERIAL_MSG_STATUS && spec_msg_status_response(b) is Some
        ||| c == G3_SERIAL_MSG_ADP_DISCOVERY_INDICATION && spec_discovery_event(b) is Some
        ||| c == G3_SERIAL_MSG_ADP_DISCOVERY_CONFIRM && spec_second_byte_status(b) is Some
        ||| c == G3_SERIAL_MSG_ADP_GET_CONFIRM && spec_get_response_ok(b)
        ||| c == G3_SERIAL_MSG_ADP_MAC_GET_CONFIRM && spec_get_response_ok(b)
        ||| c == G3_SERIAL_MSG_ADP_NETWORK_START_CONFIRM && spec_second_byte_status(b) is Some
    }
}

/// Whether `m` is the decoding of the frame content `b`.
pub open spec fn spec_adp_decoding(m: AdpG3, b: Seq<u8>) -> bool {
    b.len() > 0 && match m {
        AdpG3::DataResponse(d) => b[0] == G3_SERIAL_MSG_ADP_DATA_CONFIRM && spec_data_response(b)
            == Some(d),
        AdpG3::SetResponse(d) => b[0] == G3_SERIAL_MSG_ADP_SET_CONFIRM && spec_set_response(b)
            == Some(d),
        AdpG3::SetMacResponse(d) => b[0] == G3_SERIAL_MSG_ADP_MAC_SET_CONFIRM
            && spec_set_mac_response(b) == Some(d),
        AdpG3::MsgStatusResponse(d) => b[0] == G3_SERIAL_MSG_STATUS && spec_msg_status_response(
            b,
        ) == Some(d),
        AdpG3::DiscoveryEvent(d) => b[0] == G3_SERIAL_MSG_ADP_DISCOVERY_INDICATION
            && spec_discovery_event(b) == Some(d),
        AdpG3::DiscoveryResponse(d) => b[0] == G3_SERIAL_MSG_ADP_DISCOVERY_CONFIRM
            && spec_second_byte_status(b) == Some(d.status),
        AdpG3::GetResponse(d) => b[0] == G3_SERIAL_MSG_ADP_GET_CONFIRM && d.is_decoding_of(b),
        AdpG3::GetMacResponse(d) => b[0] == G3_SERIAL_MSG_ADP_MAC_GET_CONFIRM && d.is_decoding_of(
            b,
        ),
        AdpG3::NetworkStartResponse(d) => b[0] == G3_SERIAL_MSG_ADP_NETWORK_START_CONFIRM
            && spec_second_byte_status(b) == Some(d.status),
        _ => false,
    }
}

/// Decodes the content of a received frame into an ADP message, by its
/// message code; `None` for the codes it does not know and for content that
/// does not decode.
pub fn usi_message_to_message(msg: &usi::InMessage) -> (r: Option<Message>)
    ensures
        r is Some <==> spec_adp_decodes(msg.buf@),
        r matches Some(Message::AdpG3(m)) ==> spec_adp_decoding(m, msg.buf@),
{
    if msg.buf.len() > 0 {
        let cmd = msg.buf[0];
        if cmd == G3_SERIAL_MSG_ADP_DATA_CONFIRM {
            if let Some(data_response) = DataResponse::try_from_message(&msg) {
                return Some(Message::AdpG3(AdpG3::DataResponse(data_response)));
            }
        } else if cmd == G3_SERIAL_MSG_ADP_SET_CONFIRM {
            if let Some(set_response) = SetResponse::try_from_message(&msg) {
                return Some(Message::AdpG3(AdpG3::SetResponse(set_response)));
            }
        } else if cmd == G3_SERIAL_MSG_ADP_MAC_SET_CONFIRM {
            if let Some(set_response) = SetMacResponse::try_from_message(&msg) {
                return Some(Message::AdpG3(AdpG3::SetMacResponse(set_response)));
            }
        } else if cmd == G3_SERIAL_MSG_STATUS {
            if let Some(msg_response) = MsgStatusResponse::try_from_message(&msg) {
                return Some(Message::AdpG3(AdpG3::MsgStatusResponse(msg_response)));
            }
        } else if cmd == G3_SERIAL_MSG_ADP_DISCOVERY_INDICATION {
            if let Some(discovery_event) = DiscoveryEvent::try_from_message(&msg) {
                return Some(Message::AdpG3(AdpG3::DiscoveryEvent(discovery_event)));
            }
        } else if cmd == G3_SERIAL_MSG_ADP_DISCOVERY_CONFIRM {
            if let Some(discovery_response) = DiscoveryResponse::try_from_message(&msg) {
                return Some(Message::AdpG3(AdpG3::DiscoveryResponse(discovery_response)));
            }
        } else if cmd == G3_SERIAL_MSG_ADP_GET_CONFIRM {
            if let Some(get_response) = GetResponse::try_from_message(&msg) {
                return Some(Message::AdpG3(AdpG3::GetResponse(get_response)));
            }
        } else if cmd == G3_SERIAL_MSG_ADP_MAC_GET_CONFIRM {
            if let Some(mac_get_response) = GetMacResponse::try_from_message(&msg) {
                return Some(Message::AdpG3(AdpG3::GetMacResponse(mac_get_response)));
            }
        } else if cmd == G3_SERIAL_MSG_ADP_NETWORK_START_CONFIRM {
            if let Some(network_start_response) = NetworkStartResponse::try_from_message(&msg) {
                return Some(Message::AdpG3(AdpG3::NetworkStartResponse(network_start_response)));
            }
        }
    }
    None
}

} // verus!

//! The LoWPAN bootstrapping protocol (LBP) frames: a code in the four top
//! bits of the first byte, a reserved byte, the EUI-64 address of the
//! bootstrapping device and, for some codes, bootstrapping data.
use vstd::prelude::*;

use crate::adp;
use crate::adp::TExtendedAddress;

verus! {

/// The LBP (bootstrapping protocol) message codes.
#[derive(Clone, Copy, Debug, PartialEq, Eq, Structural, Hash)]
pub enum LbpMessageType {
    LBP_JOINING,
    LBP_ACCEPTED,
    LBP_CHALLENGE,
    LBP_DECLINE,
    LBP_KICK_FROM_LBD,
    LBP_KICK_TO_LBD,
}

/// The wire value of each `LbpMessageType`.
pub open spec fn spec_lbp_message_type_value(a: LbpMessageType) -> u8 {
    match a {
        LbpMessageType::LBP_JOINING => 0x01u8,
        LbpMessageType::LBP_ACCEPTED => 0x09u8,
        LbpMessageType::LBP_CHALLENGE => 0x0Au8,
        LbpMessageType::LBP_DECLINE => 0x0Bu8,
        LbpMessageType::LBP_KICK_FROM_LBD => 0x04u8,
        LbpMessageType::LBP_KICK_TO_LBD => 0x0Cu8,
    }
}

/// The `LbpMessageType` of a wire value, if there is one.
pub open spec fn spec_lbp_message_type_from(v: u8) -> Option<LbpMessageType> {
    match v {
        0x01u8 => Some(LbpMessageType::LBP_JOINING),
        0x09u8 => Some(LbpMessageType::LBP_ACCEPTED),
        0x0Au8 => Some(LbpMessageType::LBP_CHALLENGE),
        0x0Bu8 => Some(LbpMessageType::LBP_DECLINE),
        0x04u8 => Some(LbpMessageType::LBP_KICK_FROM_LBD),
        0x0Cu8 => Some(LbpMessageType::LBP_KICK_TO_LBD),
        _ => None,
    }
}

impl LbpMessageType {
    pub fn into_primitive(self) -> (r: u8)
        ensures
            r == spec_lbp_message_type_value(self),
    {
        match self {
            LbpMessageType::LBP_JOINING => 0x01,
            LbpMessageType::LBP_ACCEPTED => 0x09,
            LbpMessageType::LBP_CHALLENGE => 0x0A,
            LbpMessageType::LBP_DECLINE => 0x0B,
            LbpMessageType::LBP_KICK_FROM_LBD => 0x04,
            LbpMessageType::LBP_KICK_TO_LBD => 0x0C,
        }
    }

    pub fn try_from_primitive(v: u8) -> (r: Option<LbpMessageType>)
        ensures
            r == spec_lbp_message_type_from(v),
    {
        match v {
            0x01 => Some(LbpMessageType::LBP_JOINING),
            0x09 => Some(LbpMessageType::LBP_ACCEPTED),
            0x0A => Some(LbpMessageType::LBP_CHALLENGE),
            0x0B => Some(LbpMessageType::LBP_DECLINE),
            0x04 => Some(LbpMessageType::LBP_KICK_FROM_LBD),
            0x0C => Some(LbpMessageType::LBP_KICK_TO_LBD),
            _ => None,
        }
    }
}

/// Reading back the wire value of a `LbpMessageType` gives the same `LbpMessageType`.
pub proof fn lemma_lbp_message_type_roundtrip(a: LbpMessageType)
    ensures
        spec_lbp_message_type_from(spec_lbp_message_type_value(a)) == Some(a),
{
}

/// A wire value that names a `LbpMessageType` is that one's value.
pub proof fn lemma_lbp_message_type_from_value(v: u8)
    ensures
        spec_lbp_message_type_from(v) matches Some(a) ==> spec_lbp_message_type_value(a) == v,
{
}

#[derive(Debug)]
pub enum LbpMessage {
    Joining(JoiningMessage),
    Accepted(AcceptedMessage),
    Challenge(ChallengeMessage),
    Decline(DeclineMessage),
    KickFromLbd(KickFromLbdMessage),
    KickToLbd(KickToLbdMessage),
}

/// A device asks to join the PAN, with its authentication material.
#[derive(Debug)]
pub struct JoiningMessage {
    pub ext_addr: TExtendedAddress,
    pub bootstrapping_data: Vec<u8>,
}

/// Authentication succeeded; the data holds device specific information.
#[derive(Debug)]
pub struct AcceptedMessage {
    pub ext_addr: TExtendedAddress,
    pub bootstrapping_data: Vec<u8>,
}

/// Authentication in progress.
#[derive(Debug)]
pub struct ChallengeMessage {
    pub ext_addr: TExtendedAddress,
    pub bootstrapping_data: Vec<u8>,
}

/// Authentication failed.
#[derive(Debug)]
pub struct DeclineMessage {
    pub ext_addr: TExtendedAddress,
}

/// A device tells the coordinator that it left the PAN.
#[derive(Debug)]
pub struct KickFromLbdMessage {
    pub ext_addr: TExtendedAddress,
}

/// The coordinator forces a device out of the PAN.
#[derive(Debug)]
pub struct KickToLbdMessage {
    pub ext_addr: TExtendedAddress,
}

/// The bytes of an LBP frame of type `t`: the code in the top four bits, a
/// zero byte (the reserved transaction identifier), the address, the data.
pub open spec fn spec_lbp_frame(t: LbpMessageType, addr: Seq<u8>, data: Seq<u8>) -> Seq<u8> {
    seq![(spec_lbp_message_type_value(t) * 16) as u8, 0u8] + addr + data
}

fn lbp_frame(t: LbpMessageType, addr: &TExtendedAddress, data: &Vec<u8>) -> (v: Vec<u8>)
    ensures
        v@ == spec_lbp_frame(t, addr.0@, data@),
{
    let cmd: u8 = t.into_primitive();
    let mut v = vec![(cmd << 4u8), 0x0];
    assert((cmd << 4u8) == (cmd * 16) as u8) by (bit_vector)
        requires
            cmd <= 12,
    ;
    let mut i: usize = 0;
    while i < 8
        invariant
            i <= 8,
            v@ == seq![(cmd * 16) as u8, 0u8] + addr.0@.take(i as int),
        decreases 8 - i,
    {
        v.push(addr.0[i]);
        assert(addr.0@.take(i + 1) =~= addr.0@.take(i as int).push(addr.0@[i as int]));
        i = i + 1;
    }
    assert(addr.0@.take(8) =~= addr.0@);
    let mut j: usize = 0;
    while j < data.len()
        invariant
            j <= data.len(),
            v@ == seq![(cmd * 16) as u8, 0u8] + addr.0@ + data@.take(j as int),
        decreases data.len() - j,
    {
        v.push(data[j]);
        assert(data@.take(j + 1) =~= data@.take(j as int).push(data@[j as int]));
        j = j + 1;
    }
    assert(data@.take(data.len() as int) =~= data@);
    assert(v@ =~= spec_lbp_frame(t, addr.0@, data@));
    v
}

impl AcceptedMessage {
    pub fn into(self) -> (v: Vec<u8>)
        ensures
            v@ == spec_lbp_frame(
                LbpMessageType::LBP_ACCEPTED,
                self.ext_addr.0@,
                self.bootstrapping_data@,
            ),
    {
        lbp_frame(LbpMessageType::LBP_ACCEPTED, &self.ext_addr, &self.bootstrapping_data)
    }
}

impl ChallengeMessage {
    pub fn into(self) -> (v: Vec<u8>)
        ensures
            v@ == spec_lbp_frame(
                LbpMessageType::LBP_CHALLENGE,
                self.ext_addr.0@,
                self.bootstrapping_data@,
            ),
    {
        lbp_frame(LbpMessageType::LBP_CHALLENGE, &self.ext_addr, &self.bootstrapping_data)
    }
}

impl DeclineMessage {
    pub fn new(ext_addr: TExtendedAddress) -> (r: Self)
        ensures
            r.ext_addr == ext_addr,
    {
        DeclineMessage { ext_addr }
    }

    pub fn into(self) -> (v: Vec<u8>)
        ensures
            v@ == spec_lbp_frame(LbpMessageType::LBP_DECLINE, self.ext_addr.0@, Seq::empty()),
    {
        lbp_frame(LbpMessageType::LBP_DECLINE, &self.ext_addr, &Vec::new())
    }
}

impl KickFromLbdMessage {
    pub fn into(self) -> (v: Vec<u8>)
        ensures
            v@ == spec_lbp_frame(
                LbpMessageType::LBP_KICK_FROM_LBD,
                self.ext_addr.0@,
                Seq::empty(),
            ),
    {
        lbp_frame(LbpMessageType::LBP_KICK_FROM_LBD, &self.ext_addr, &Vec::new())
    }
}

impl KickToLbdMessage {
    pub fn into(self) -> (v: Vec<u8>)
        ensures
            v@ == spec_lbp_frame(LbpMessageType::LBP_KICK_TO_LBD, self.ext_addr.0@, Seq::empty()),
    {
        lbp_frame(LbpMessageType::LBP_KICK_TO_LBD, &self.ext_addr, &Vec::new())
    }
}

/// Shortest LBP frame: the code byte, the reserved byte and the address.
pub const LBP_MESSAGE_MIN_LEN: usize = 10;

/// The type of an LBP frame, when it has one.
pub open spec fn spec_lbp_type(b: Seq<u8>) -> Option<LbpMessageType> {
    if b.len() >= LBP_MESSAGE_MIN_LEN {
        spec_lbp_message_type_from((b[0] / 16) as u8)
    } else {
        None
    }
}

/// Whether `m` is the decoding of the LBP frame `b`: its type, the address in
/// bytes 2 to 9 and, for joining, accepted and challenge frames, the data from
/// byte 10 on.
pub open spec fn spec_lbp_decoding(m: LbpMessage, b: Seq<u8>) -> bool {
    let addr = b.subrange(2, 10);
    let data = b.skip(10);
    match m {
        LbpMessage::Joining(j) => spec_lbp_type(b) == Some(LbpMessageType::LBP_JOINING)
            && j.ext_addr.0@ == addr && j.bootstrapping_data@ == data,
        LbpMessage::Accepted(j) => spec_lbp_type(b) == Some(LbpMessageType::LBP_ACCEPTED)
            && j.ext_addr.0@ == addr && j.bootstrapping_data@ == data,
        LbpMessage::Challenge(j) => spec_lbp_type(b) == Some(LbpMessageType::LBP_CHALLENGE)
            && j.ext_addr.0@ == addr && j.bootstrapping_data@ == data,
        LbpMessage::Decline(j) => spec_lbp_type(b) == Some(LbpMessageType::LBP_DECLINE)
            && j.ext_addr.0@ == addr,
        LbpMessage::KickFromLbd(j) => spec_lbp_type(b) == Some(LbpMessageType::LBP_KICK_FROM_LBD)
            && j.ext_addr.0@ == addr,
        LbpMessage::KickToLbd(j) => spec_lbp_type(b) == Some(LbpMessageType::LBP_KICK_TO_LBD)
            && j.ext_addr.0@ == addr,
    }
}

/// Decodes the LBP frame carried by an LBP indication.
pub fn adp_message_to_lbp_message(msg: &adp::LbpEvent) -> (r: Option<LbpMessage>)
    ensures
        r is Some <==> spec_lbp_type(msg.nsdu@) is Some,
        r matches Some(m) ==> spec_lbp_decoding(m, msg.nsdu@),
{
    let b = &msg.nsdu;
    if b.len() < LBP_MESSAGE_MIN_LEN {
        return None;
    }
    let b0 = b[0];
    let code = (b0 & 0xF0) >> 4u8;
    assert((b0 & 0xF0u8) >> 4u8 == b0 / 16) by (bit_vector);
    if let Some(lbp_msg_type) = LbpMessageType::try_from_primitive(code) {
        let ext_addr = TExtendedAddress([b[2], b[3], b[4], b[5], b[6], b[7], b[8], b[9]]);
        assert(ext_addr.0@ =~= b@.subrange(2, 10));
        let n = b.len();
        match lbp_msg_type {
            LbpMessageType::LBP_JOINING => {
                let d = vstd::slice::slice_to_vec(vstd::slice::slice_subrange(b.as_slice(), 10, n));
                assert(d@ =~= b@.skip(10));
                return Some(LbpMessage::Joining(JoiningMessage { ext_addr, bootstrapping_data: d }));
            },
            LbpMessageType::LBP_ACCEPTED => {
                let d = vstd::slice::slice_to_vec(vstd::slice::slice_subrange(b.as_slice(), 10, n));
                assert(d@ =~= b@.skip(10));
                return Some(
                    LbpMessage::Accepted(AcceptedMessage { ext_addr, bootstrapping_data: d }),
                );
            },
            LbpMessageType::LBP_CHALLENGE => {
                let d = vstd::slice::slice_to_vec(vstd::slice::slice_subrange(b.as_slice(), 10, n));
                assert(d@ =~= b@.skip(10));
                return Some(
                    LbpMessage::Challenge(ChallengeMessage { ext_addr, bootstrapping_data: d }),
                );
            },
            LbpMessageType::LBP_DECLINE => {
                return Some(LbpMessage::Decline(DeclineMessage { ext_addr }));
            },
            LbpMessageType::LBP_KICK_FROM_LBD => {
                return Some(LbpMessage::KickFromLbd(KickFromLbdMessage { ext_addr }));
            },
            LbpMessageType::LBP_KICK_TO_LBD => {
                return Some(LbpMessage::KickToLbd(KickToLbdMessage { ext_addr }));
            },
        }
    }
    None
}

/// A frame that `into` encodes for type `t`, address `addr` (eight bytes) and
/// data, decodes back to type `t`, the address `addr` and the data.
pub proof fn lemma_lbp_frame_roundtrip(t: LbpMessageType, addr: Seq<u8>, data: Seq<u8>)
    requires
        addr.len() == 8,
    ensures
        spec_lbp_type(spec_lbp_frame(t, addr, data)) == Some(t),
        spec_lbp_frame(t, addr, data).subrange(2, 10) == addr,
        spec_lbp_frame(t, addr, data).skip(10) == data,
{
    let f = spec_lbp_frame(t, addr, data);
    let v = spec_lbp_message_type_value(t);
    assert(v <= 12);
    assert(f[0] / 16 == v);
    lemma_lbp_message_type_roundtrip(t);
    assert(f.subrange(2, 10) =~= addr);
    assert(f.skip(10) =~= data);
}

} // verus!

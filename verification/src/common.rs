//! Protocol identifiers of the Microchip USI serial interface and the bit
//! layout of its frame header.
use vstd::prelude::*;

verus! {
pub const MNGP_PRIME: u8 = 0x00;
pub const MNGP_PRIME_GETQRY: u8 = 0x00;
pub const MNGP_PRIME_GETRSP: u8 = 0x01;
pub const MNGP_PRIME_SET: u8 = 0x02;
pub const MNGP_PRIME_RESET: u8 = 0x03;
pub const MNGP_PRIME_REBOOT: u8 = 0x04;
pub const MNGP_PRIME_FU: u8 = 0x05;
pub const MNGP_PRIME_EN_PIBQRY: u8 = 0x06;
pub const MNGP_PRIME_EN_PIBRSP: u8 = 0x07;
// Atmel serialized protocols
pub const PROTOCOL_SNIF_PRIME: u8 = 0x13;
pub const PROTOCOL_MAC_PRIME: u8 = 0x17;
pub const PROTOCOL_MLME_PRIME: u8 = 0x18;
pub const PROTOCOL_PLME_PRIME: u8 = 0x19;
pub const PROTOCOL_432_PRIME: u8 = 0x1A;
pub const PROTOCOL_BASEMNG_PRIME: u8 = 0x1D;
pub const PROTOCOL_PRIMEoUDP: u8 = 0x1F;
pub const PROTOCOL_PHY_ATPL2x0: u8 = 0x22;

pub const PROTOCOL_ATPL230: u8 = PROTOCOL_PHY_ATPL2x0;
pub const PROTOCOL_ATPL250: u8 = PROTOCOL_PHY_ATPL2x0;
pub const PROTOCOL_SNIF_G3: u8 = 0x23;
pub const PROTOCOL_MAC_G3: u8 = 0x24;
pub const PROTOCOL_ADP_G3: u8 = 0x25;
pub const PROTOCOL_COORD_G3: u8 = 0x26;
pub const PROTOCOL_PRIME_API: u8 = 0x30;
pub const PROTOCOL_USER_DEFINED: u8 = 0x3E;
pub const PROTOCOL_USER_DEFINED_2: u8 = 0xFE;
pub const PROTOCOL_INVALID: u8 = 0xFF;

pub const USI_LOG_LEVEL_ERR: u8 = 3;
pub const USI_LOG_LEVEL_INFO: u8 = 2;
pub const USI_LOG_LEVEL_DEBUG: u8 = 1;

pub const USI_LOG_LEVEL: u8 = USI_LOG_LEVEL_ERR;

pub const MSGMARK: u8 = 0x7e;
pub const ESCMARK: u8 = 0x7d;

pub const HEADER_LEN: u8 = 2;
pub const CRC8_LEN: u8 = 1;
pub const CRC16_LEN: u8 = 2;
pub const CRC32_LEN: u8 = 4;

pub const TYPE_PROTOCOL_OFFSET: u8 = 1;
pub const TYPE_PROTOCOL_MSK: u8 = 0x3F;

pub const LEN_PROTOCOL_HI_OFFSET: u8 = 0;
pub const LEN_PROTOCOL_HI_MSK: u8 = 0xFF;
pub const LEN_PROTOCOL_HI_SHIFT: u8 = 2;

pub const LEN_PROTOCOL_LO_OFFSET: u8 = 1;
pub const LEN_PROTOCOL_LO_MSK: u8 = 0xC0;
pub const LEN_PROTOCOL_LO_SHIFT: u8 = 6;

pub const XLEN_PROTOCOL_OFFSET: u8 = 2;
pub const XLEN_PROTOCOL_MSK: u8 = 0x80;
pub const XLEN_PROTOCOL_SHIFT_L: u8 = 3;
pub const XLEN_PROTOCOL_SHIFT_R: u8 = 10;

pub const PAYLOAD_OFFSET: u8 = 2;

pub const CMD_PROTOCOL_OFFSET: u8 = 2;
pub const CMD_PROTOCOL_MSK: u8 = 0x7F;

pub const PROTOCOL_DELIMITER: u8 = 0x7e;
pub const PROTOCOL_ESC: u8 = 0x7d;
pub const PROTOCOL_MIN_LEN: u8 = 4;

/// Payload length of a frame header whose first two bytes are `A` and `B`
/// (ten bits: `A` shifted by two, then the two top bits of `B`).
pub open spec fn spec_protocol_len(A: int, B: int) -> int {
    (A * 4) % 0x10000 + B / 64
}

/// Computes the ten bit payload length from the two header bytes. The sum is
/// computed in `u16`; `requires` excludes the inputs on which it overflows.
pub fn get_protocol_len(A: u16, B: u16) -> (r: u16)
    requires
        spec_protocol_len(A as int, B as int) <= 0xFFFF,
    ensures
        r == spec_protocol_len(A as int, B as int),
{
    let hi: u16 = A << LEN_PROTOCOL_HI_SHIFT;
    let lo: u16 = B >> LEN_PROTOCOL_LO_SHIFT;
    assert(hi == (A * 4) % 0x10000) by (bit_vector)
        requires
            hi == A << 2u8,
    ;
    assert(lo == B / 64) by (bit_vector)
        requires
            lo == B >> 6u8,
    ;
    hi + lo
}

/// Payload length of a PRIME API header: the ten bit length of
/// `spec_protocol_len`, with bit 10 taken from the top bit of `C`.
pub open spec fn spec_protocol_xlen(A: u8, B: u8, C: u8) -> int {
    A as int * 4 + B as int / 64 + (if C >= 0x80 { 1024int } else { 0int })
}

/// Computes the extended (eleven bit) payload length of a PRIME API header.
pub fn get_protocol_xlen(A: u8, B: u8, C: u8) -> (r: u16)
    ensures
        r == spec_protocol_xlen(A, B, C),
{
    let a: u16 = (A as u16) << LEN_PROTOCOL_HI_SHIFT;
    let b: u16 = (B as u16) >> LEN_PROTOCOL_LO_SHIFT;
    let c: u16 = ((C & XLEN_PROTOCOL_MSK) as u16) << XLEN_PROTOCOL_SHIFT_L;
    assert(a == A as u16 * 4) by (bit_vector)
        requires
            a == (A as u16) << 2u8,
    ;
    assert(b == B as u16 / 64) by (bit_vector)
        requires
            b == (B as u16) >> 6u8,
    ;
    assert(c == (if C >= 0x80 { 1024u16 } else { 0u16 })) by (bit_vector)
        requires
            c == ((C & 0x80u8) as u16) << 3u8,
    ;
    a + b + c
}

/// First header byte: bits 2 to 9 of the payload length.
pub fn LEN_HI_PROTOCOL(len: u16) -> (r: u8)
    ensures
        r == (len / 4) % 256,
{
    let r = ((len >> LEN_PROTOCOL_HI_SHIFT) & LEN_PROTOCOL_HI_MSK as u16) as u8;
    assert(((len >> 2u8) & 0xFFu16) as u8 == (len / 4) % 256) by (bit_vector);
    r
}

/// Second header byte, length part: bits 0 and 1 of the payload length, in the
/// two top bits.
pub fn LEN_LO_PROTOCOL(len: u16) -> (r: u8)
    ensures
        r == (len % 4) * 64,
{
    let r = ((len << LEN_PROTOCOL_LO_SHIFT) & LEN_PROTOCOL_LO_MSK as u16) as u8;
    assert(((len << 6u8) & 0xC0u16) as u8 == (len % 4) * 64) by (bit_vector);
    r
}

/// Bits 10 and 11 of the payload length, in bits 6 and 7 of the result.
pub fn LEN_EX_PROTOCOL(len: u16) -> (r: u8)
    ensures
        r == ((len / 1024) % 4) * 64,
{
    let r = ((len & 0x0c00) >> 4) as u8;
    assert(((len & 0x0c00u16) >> 4u16) as u8 == ((len / 1024) % 4) * 64) by (bit_vector);
    r
}

/// The command field of a PRIME API frame: the seven low bits.
pub fn CMD_PROTOCOL(cmd: u8) -> (r: u8)
    ensures
        r == cmd % 128,
{
    let r = cmd & CMD_PROTOCOL_MSK;
    assert(cmd & 0x7Fu8 == cmd % 128) by (bit_vector);
    r
}

/// The protocol type field of the second header byte: its six low bits.
pub fn TYPE_PROTOCOL(A: u8) -> (r: u8)
    ensures
        r == A % 64,
{
    let r = (A) & TYPE_PROTOCOL_MSK;
    assert(A & 0x3Fu8 == A % 64) by (bit_vector);
    r
}


/// `String::push` appends the given character at the end of the string, as
/// the standard library documents it.
pub assume_specification[ String::push ](s: &mut String, ch: char)
    ensures
        final(s)@ == old(s)@.push(ch),
;

/// The upper case hexadecimal digit of `n`, for `n < 16`.
pub open spec fn hex_digit(n: int) -> char {
    if n < 10 {
        (48 + n) as char
    } else {
        (55 + n) as char
    }
}

/// The two upper case hexadecimal digits of a byte.
pub open spec fn hex_byte(b: u8) -> Seq<char> {
    seq![hex_digit(b as int / 16), hex_digit(b as int % 16)]
}

/// The bytes of `s` written as two hexadecimal digits each, separated by one
/// space.
pub open spec fn hex_string(s: Seq<u8>) -> Seq<char>
    decreases s.len(),
{
    if s.len() == 0 {
        Seq::empty()
    } else if s.len() == 1 {
        hex_byte(s[0])
    } else {
        hex_string(s.drop_last()) + seq![' '] + hex_byte(s.last())
    }
}

fn hex_char(n: u8) -> (c: char)
    requires
        n < 16,
    ensures
        c == hex_digit(n as int),
{
    if n < 10 {
        (48 + n) as char
    } else {
        (55 + n) as char
    }
}

/// Writes `bytes` as upper case hexadecimal pairs separated by spaces.
pub fn to_hex_string(bytes: &[u8]) -> (r: String)
    ensures
        r@ == hex_string(bytes@),
{
    let mut r = String::new();
    let mut i: usize = 0;
    while i < bytes.len()
        invariant
            i <= bytes.len(),
            r@ == hex_string(bytes@.take(i as int)),
        decreases bytes.len() - i,
    {
        let b = bytes[i];
        let ghost prev = r@;
        if i > 0 {
            r.push(' ');
        }
        r.push(hex_char(b / 16));
        r.push(hex_char(b % 16));
        assert(bytes@.take(i + 1).drop_last() =~= bytes@.take(i as int));
        if i == 0 {
            assert(r@ =~= hex_byte(b));
        } else {
            assert(r@ =~= prev + seq![' '] + hex_byte(b));
        }
        i = i + 1;
    }
    assert(bytes@.take(bytes.len() as int) =~= bytes@);
    r
}

/// Same as `to_hex_string`, on an owned vector.
pub fn array_to_hex_string(bytes: Vec<u8>) -> (r: String)
    ensures
        r@ == hex_string(bytes@),
{
    to_hex_string(bytes.as_slice())
}

/// A stack parameter to set: the protocol it belongs to (ADP or MAC), the
/// attribute identifier, the attribute index and the value.
#[derive(Clone, Debug)]
pub struct Parameter {
    pub protocol: u8,
    pub id: u32,
    pub idx: u16,
    pub value: Vec<u8>,
}

impl Parameter {
    pub fn new(protocol: u8, id: u32, idx: u16, value: Vec<u8>) -> (r: Self)
        ensures
            r.protocol == protocol,
            r.id == id,
            r.idx == idx,
            r.value@ == value@,
    {
        Parameter { protocol, id, idx, value }
    }
}

} // verus!

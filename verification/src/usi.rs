//! The USI serial framing of the Microchip G3 stack: a frame is
//! `0x7E`, the escaped header, payload and CRC, then `0x7E`.
use vstd::prelude::*;

use crate::common;
use crate::common::{PROTOCOL_DELIMITER, PROTOCOL_ESC, PROTOCOL_PRIME_API};
use crate::crc;
use crate::crc::{crc16_spec, crc32_spec, crc8_spec};

verus! {

/// `std::time::SystemTime`, carried by heartbeat messages.
#[verifier::external_type_specification]
#[verifier::external_body]
pub struct ExSystemTime(std::time::SystemTime);

/// The messages exchanged with the serial port handler.
#[derive(Debug)]
pub enum Message {
    UsiIn(InMessage),
    UsiOut(OutMessage),
    HeartBeat(std::time::SystemTime),
    SystemStartup,
}

/// Something that consumes USI messages.
pub trait MessageHandler {
    fn process(&mut self, msg: Message) -> bool;
}

/// Something that writes frames to the serial line.
pub trait UsiSender {
    fn send(&mut self, cmd: &OutMessage) -> Result<(), String>;
}

/// The receiver's state.
#[derive(Clone, Copy, Debug, PartialEq, Eq, Structural)]
pub enum RxState {
    /// Waiting for the opening delimiter.
    RxIdle,
    /// Receiving the frame.
    RxMsg,
    /// The previous byte was an escape byte.
    RxEsc,
    RxError,
    RxDone,
}

/// An outgoing command: a protocol identifier and its data, the command byte
/// first.
#[derive(Debug)]
pub struct OutMessage {
    pub protocol: u8,
    pub data: Vec<u8>,
}

/// Longest data that `OutMessage::to_usi` frames.
pub const MAX_OUT_DATA_LEN: usize = 2048;

/// CRC-32 (four bytes) protects the PRIME management protocols that the
/// sender knows (0x00 to 0x06).
pub open spec fn out_uses_crc32(p: u8) -> bool {
    p <= 6
}

/// The protocols protected by a CRC-16 (two bytes).
pub open spec fn uses_crc16(p: u8) -> bool {
    p == 0x13 || p == 0x23 || p == 0x24 || p == 0x25 || p == 0x26 || p == 0x1F
}

pub open spec fn be16(c: u16) -> Seq<u8> {
    seq![(c >> 8u16) as u8, c as u8]
}

pub open spec fn be32(c: u32) -> Seq<u8> {
    seq![(c >> 24u32) as u8, (c >> 16u32) as u8, (c >> 8u32) as u8, c as u8]
}

/// The CRC bytes that the sender appends to `v` for protocol `p`.
pub open spec fn out_crc(p: u8, v: Seq<u8>) -> Seq<u8> {
    if out_uses_crc32(p) {
        be32(crc32_spec(v))
    } else if uses_crc16(p) {
        be16(crc16_spec(v))
    } else {
        seq![crc8_spec(v)]
    }
}

/// The first payload byte as sent: for the PRIME API it also carries bits 10
/// and 11 of the length.
pub open spec fn out_first_byte(p: u8, data: Seq<u8>) -> u8 {
    if p == PROTOCOL_PRIME_API {
        (((data.len() / 1024) % 4) * 64 + data[0] % 128) as u8
    } else {
        data[0]
    }
}

/// Header and payload of an outgoing frame, before its CRC.
pub open spec fn out_body(p: u8, data: Seq<u8>) -> Seq<u8> {
    let len = data.len();
    seq![((len / 4) % 256) as u8, ((len % 4) * 64 + p % 64) as u8] + if len == 0 {
        Seq::<u8>::empty()
    } else {
        seq![out_first_byte(p, data)] + data.skip(1)
    }
}

/// A byte as written on the line: the delimiter and the escape byte are
/// replaced by the escape byte and the byte xor 0x20.
pub open spec fn esc1(b: u8) -> Seq<u8> {
    if b == PROTOCOL_DELIMITER || b == PROTOCOL_ESC {
        seq![PROTOCOL_ESC, b ^ 0x20u8]
    } else {
        seq![b]
    }
}

pub open spec fn escape(v: Seq<u8>) -> Seq<u8>
    decreases v.len(),
{
    if v.len() == 0 {
        Seq::empty()
    } else {
        esc1(v[0]) + escape(v.drop_first())
    }
}

/// The bytes that `OutMessage::to_usi` writes for protocol `p` and `data`.
pub open spec fn usi_frame(p: u8, data: Seq<u8>) -> Seq<u8> {
    let body = out_body(p, data);
    seq![PROTOCOL_DELIMITER] + escape(body + out_crc(p, body)) + seq![PROTOCOL_DELIMITER]
}

/// Escaping a sequence with one more byte appends the escape of that byte.
pub proof fn lemma_escape_push(v: Seq<u8>, b: u8)
    ensures
        escape(v.push(b)) == escape(v) + esc1(b),
    decreases v.len(),
{
    if v.len() == 0 {
        assert(v.push(b).drop_first() =~= Seq::<u8>::empty());
        assert(escape(v.push(b)) =~= esc1(b) + escape(Seq::<u8>::empty()));
        assert(escape(v) + esc1(b) =~= esc1(b));
    } else {
        assert(v.push(b).drop_first() =~= v.drop_first().push(b));
        lemma_escape_push(v.drop_first(), b);
        assert(escape(v.push(b)) =~= esc1(v[0]) + escape(v.drop_first().push(b)));
        assert(escape(v.push(b)) =~= esc1(v[0]) + escape(v.drop_first()) + esc1(b));
    }
}

impl OutMessage {
    pub fn new(protocol: u8, data: &Vec<u8>) -> (r: OutMessage)
        ensures
            r.protocol == protocol,
            r.data@ == data@,
    {
        OutMessage { protocol: protocol, data: data.clone() }
    }

    /// Frames the message for the serial line: `None` when the data is longer
    /// than 2048 bytes, else the frame of `usi_frame`.
    pub fn to_usi(&self) -> (r: Option<Vec<u8>>)
        ensures
            self.data.len() > MAX_OUT_DATA_LEN ==> r is None,
            self.data.len() <= MAX_OUT_DATA_LEN ==> (r matches Some(f) && f@ == usi_frame(
                self.protocol,
                self.data@,
            )),
    {
        if self.data.len() > MAX_OUT_DATA_LEN {
            return None;
        }
        let len: u16 = self.data.len() as u16;
        let ghost d = self.data@;
        let mut v: Vec<u8> = Vec::with_capacity(1024);
        let hi = common::LEN_HI_PROTOCOL(len);
        let lo = common::LEN_LO_PROTOCOL(len);
        let ty = common::TYPE_PROTOCOL(self.protocol);
        v.push(hi);
        v.push(lo + ty);
        if self.data.len() > 0 {
            let cmd = self.data[0];
            if self.protocol == PROTOCOL_PRIME_API {
                let ex = common::LEN_EX_PROTOCOL(len);
                let c = common::CMD_PROTOCOL(cmd);
                v.push(ex + c);
            } else {
                v.push(cmd);
            }
            let mut i: usize = 1;
            while i < self.data.len()
                invariant
                    1 <= i <= self.data.len(),
                    self.data@ == d,
                    d.len() == len,
                    len <= MAX_OUT_DATA_LEN,
                    v@ == seq![hi, (lo + ty) as u8] + seq![out_first_byte(self.protocol, d)]
                        + d.subrange(1, i as int),
                decreases self.data.len() - i,
            {
                v.push(self.data[i]);
                assert(d.subrange(1, i + 1) =~= d.subrange(1, i as int).push(d[i as int]));
                i = i + 1;
            }
            assert(d.subrange(1, d.len() as int) =~= d.skip(1));
        }
        assert(v@ =~= out_body(self.protocol, d));
        let ghost body = v@;
        if self.protocol <= 6 {
            let crc = crc::evalCrc32(&v);
            v.push((crc >> 24u32) as u8);
            v.push((crc >> 16u32) as u8);
            v.push((crc >> 8u32) as u8);
            v.push(crc as u8);
        } else if self.protocol == 0x13 || self.protocol == 0x23 || self.protocol == 0x24
            || self.protocol == 0x25 || self.protocol == 0x26 || self.protocol == 0x1F {
            let crc = crc::evalCrc16(&v);
            v.push((crc >> 8u16) as u8);
            v.push(crc as u8);
        } else {
            let crc = crc::evalCrc8(&v);
            v.push(crc);
        }
        assert(v@ =~= body + out_crc(self.protocol, body));
        let mut r: Vec<u8> = Vec::with_capacity(2048);
        let mut j: usize = 0;
        while j < v.len()
            invariant
                j <= v.len(),
                r@ == escape(v@.take(j as int)),
            decreases v.len() - j,
        {
            let ch = v[j];
            proof {
                assert(v@.take(j + 1) =~= v@.take(j as int).push(ch));
                lemma_escape_push(v@.take(j as int), ch);
            }
            if ch == common::MSGMARK || ch == common::ESCMARK {
                r.push(common::ESCMARK);
                r.push(ch ^ 0x20);
            } else {
                r.push(ch);
            }
            assert(r@ =~= escape(v@.take(j + 1)));
            j = j + 1;
        }
        assert(v@.take(v.len() as int) =~= v@);
        r.insert(0, common::MSGMARK);
        r.push(common::MSGMARK);
        assert(r@ =~= usi_frame(self.protocol, d));
        Some(r)
    }
}


/// A frame being received, and after reception its content.
#[derive(Clone, Debug)]
pub struct InMessage {
    pub buf: Vec<u8>,
    pub rxState: RxState,
    pub protocol_type: Option<u8>,
    pub payload_len: usize,
}

/// The receiver as a mathematical value.
pub struct RxView {
    pub buf: Seq<u8>,
    pub state: RxState,
    pub protocol_type: Option<u8>,
    pub payload_len: int,
}

impl View for InMessage {
    type V = RxView;

    open spec fn view(&self) -> RxView {
        RxView {
            buf: self.buf@,
            state: self.rxState,
            protocol_type: self.protocol_type,
            payload_len: self.payload_len as int,
        }
    }
}

pub open spec fn rx_fresh() -> RxView {
    RxView { buf: Seq::empty(), state: RxState::RxIdle, protocol_type: None, payload_len: 0 }
}

pub open spec fn rx_with_state(m: RxView, st: RxState) -> RxView {
    RxView { buf: m.buf, state: st, protocol_type: m.protocol_type, payload_len: m.payload_len }
}

pub open spec fn rx_with_buf(m: RxView, b: Seq<u8>) -> RxView {
    RxView { buf: b, state: m.state, protocol_type: m.protocol_type, payload_len: m.payload_len }
}

/// Number of CRC bytes that the receiver expects for a protocol type.
pub open spec fn rx_crc_len(pt: u8) -> int {
    if pt <= 7 {
        4
    } else if uses_crc16(pt) {
        2
    } else if pt == PROTOCOL_PRIME_API {
        1
    } else {
        0
    }
}

/// What the receiver needs of its fields: as many bytes as the CRC it will
/// read, and a payload length to which 2 can be added.
pub open spec fn rx_wf(m: RxView) -> bool {
    &&& (m.protocol_type matches Some(pt) ==> m.buf.len() >= rx_crc_len(pt))
    &&& 0 <= m.payload_len <= usize::MAX - 2
}

/// Payload length announced by a header (at least three bytes).
pub open spec fn rx_header_len(b: Seq<u8>) -> int {
    if b[1] % 64 == PROTOCOL_PRIME_API {
        common::spec_protocol_xlen(b[0], b[1], b[2])
    } else {
        common::spec_protocol_len(b[0] as int, b[1] as int)
    }
}

/// Reading the header: once four bytes are in, the protocol type and the
/// payload length are taken from the first three.
pub open spec fn rx_process_header(m: RxView) -> RxView {
    if m.buf.len() < 4 {
        m
    } else {
        RxView {
            buf: m.buf,
            state: m.state,
            protocol_type: Some((m.buf[1] % 64) as u8),
            payload_len: rx_header_len(m.buf),
        }
    }
}

pub open spec fn be_u16(t: Seq<u8>) -> u16 {
    ((t[0] as u16) << 8u16) | (t[1] as u16)
}

pub open spec fn be_u32(t: Seq<u8>) -> u32 {
    ((t[0] as u32) << 24u32) | ((t[1] as u32) << 16u32) | ((t[2] as u32) << 8u32) | (t[3] as u32)
}

/// The CRC test of a received frame: the last bytes, read big endian, equal
/// the CRC of the header and payload.
pub open spec fn rx_check_crc(m: RxView) -> bool {
    match m.protocol_type {
        None => false,
        Some(pt) => {
            let n = m.buf.len();
            let e = m.payload_len + 2;
            if pt <= 7 {
                e <= n && be_u32(m.buf.subrange(n - 4, n as int)) == crc32_spec(
                    m.buf.subrange(0, e),
                )
            } else if uses_crc16(pt) {
                e <= n && be_u16(m.buf.subrange(n - 2, n as int)) == crc16_spec(
                    m.buf.subrange(0, e),
                )
            } else if pt == PROTOCOL_PRIME_API {
                e <= n && m.buf[n - 1] == crc8_spec(m.buf.subrange(0, e))
            } else {
                false
            }
        },
    }
}

/// The receiver after one more byte.
pub open spec fn rx_step(m: RxView, ch: u8) -> RxView {
    match m.state {
        RxState::RxIdle => {
            if ch == PROTOCOL_DELIMITER {
                rx_with_state(m, RxState::RxMsg)
            } else {
                m
            }
        },
        RxState::RxMsg => {
            if ch == PROTOCOL_ESC {
                rx_with_state(m, RxState::RxEsc)
            } else if ch == PROTOCOL_DELIMITER {
                if m.buf.len() == 0 {
                    m
                } else if rx_check_crc(m) {
                    rx_with_state(m, RxState::RxDone)
                } else {
                    rx_with_state(m, RxState::RxError)
                }
            } else {
                let m1 = rx_with_buf(m, m.buf.push(ch));
                if m.protocol_type is None {
                    rx_process_header(m1)
                } else {
                    m1
                }
            }
        },
        RxState::RxEsc => {
            if ch == PROTOCOL_ESC {
                rx_with_state(m, RxState::RxError)
            } else {
                rx_with_state(
                    rx_process_header(rx_with_buf(m, m.buf.push(ch ^ 0x20u8))),
                    RxState::RxMsg,
                )
            }
        },
        _ => m,
    }
}

pub open spec fn rx_stops(m: RxView) -> bool {
    m.state == RxState::RxDone || m.state == RxState::RxError
}

/// Feeding `input` to the receiver until it is done or fails: the receiver
/// after that and the number of bytes taken.
pub open spec fn rx_run(m: RxView, input: Seq<u8>) -> (RxView, int)
    decreases input.len(),
{
    if input.len() == 0 {
        (m, 0)
    } else {
        let m1 = rx_step(m, input[0]);
        if rx_stops(m1) {
            (m1, 1)
        } else {
            let r = rx_run(m1, input.drop_first());
            (r.0, r.1 + 1)
        }
    }
}

/// The content of a received frame: without the two header bytes (when there
/// are two) and cut to the payload length; for the PRIME API the first byte
/// keeps only its command bits.
pub open spec fn rx_content(m: RxView) -> Seq<u8> {
    let b = if m.buf.len() >= 2 {
        m.buf.skip(2)
    } else {
        m.buf
    };
    let c = b.take(m.payload_len);
    if m.protocol_type == Some(PROTOCOL_PRIME_API) {
        c.update(0, c[0] % 128)
    } else {
        c
    }
}

/// When `remove_header_and_crc` can cut the frame without a panic.
pub open spec fn rx_content_ok(m: RxView) -> bool {
    let n = if m.buf.len() >= 2 {
        m.buf.len() - 2
    } else {
        m.buf.len() as int
    };
    &&& 0 <= m.payload_len <= n
    &&& m.protocol_type == Some(PROTOCOL_PRIME_API) ==> m.payload_len >= 1
}

/// Every byte the receiver takes keeps its state well formed.
pub proof fn lemma_rx_step_wf(m: RxView, ch: u8)
    requires
        rx_wf(m),
    ensures
        rx_wf(rx_step(m, ch)),
{
    let b = m.buf;
    if b.len() >= 3 {
        let l = rx_header_len(b.push(ch));
        assert(l == rx_header_len(b.push(ch ^ 0x20u8)));
        assert(0 <= l <= 2047);
    } else {
        if b.push(ch).len() >= 4 {
            assert(0 <= rx_header_len(b.push(ch)) <= 2047);
        }
        if b.push(ch ^ 0x20u8).len() >= 4 {
            assert(0 <= rx_header_len(b.push(ch ^ 0x20u8)) <= 2047);
        }
    }
}

/// The receiver in the middle of a frame, having taken the bytes `b`
/// (unescaped) since the opening delimiter.
pub open spec fn rx_receiving(b: Seq<u8>) -> RxView {
    if b.len() < 4 {
        RxView { buf: b, state: RxState::RxMsg, protocol_type: None, payload_len: 0 }
    } else {
        RxView {
            buf: b,
            state: RxState::RxMsg,
            protocol_type: Some((b[1] % 64) as u8),
            payload_len: rx_header_len(b),
        }
    }
}

proof fn lemma_rx_receiving_step(b: Seq<u8>, x: u8)
    ensures
        x != PROTOCOL_DELIMITER && x != PROTOCOL_ESC ==> rx_step(rx_receiving(b), x)
            == rx_receiving(b.push(x)),
        x == PROTOCOL_DELIMITER || x == PROTOCOL_ESC ==> ({
            let m1 = rx_step(rx_receiving(b), PROTOCOL_ESC);
            &&& !rx_stops(m1)
            &&& rx_step(m1, x ^ 0x20u8) == rx_receiving(b.push(x))
        }),
{
    let c = b.push(x);
    if b.len() >= 3 {
        assert(c[0] == b[0] && c[1] == b[1] && c[2] == b[2]);
        if b.len() >= 4 {
            assert(rx_header_len(c) == rx_header_len(b));
        }
    }
    if x == PROTOCOL_DELIMITER || x == PROTOCOL_ESC {
        assert((x ^ 0x20u8) != PROTOCOL_ESC && (x ^ 0x20u8) ^ 0x20u8 == x) by (bit_vector)
            requires
                x == 0x7Eu8 || x == 0x7Du8,
        ;
    }
}

/// Receiving the escape of `w` in the middle of a frame takes exactly those
/// bytes, without stopping, and appends `w` to the frame.
proof fn lemma_rx_run_escaped(b: Seq<u8>, w: Seq<u8>, tail: Seq<u8>)
    ensures
        rx_run(rx_receiving(b), escape(w) + tail).0 == rx_run(rx_receiving(b + w), tail).0,
        rx_run(rx_receiving(b), escape(w) + tail).1 == escape(w).len() + rx_run(
            rx_receiving(b + w),
            tail,
        ).1,
    decreases w.len(),
{
    if w.len() == 0 {
        assert(escape(w) + tail =~= tail);
        assert(b + w =~= b);
    } else {
        let x = w[0];
        let w1 = w.drop_first();
        let b1 = b.push(x);
        assert(b1 + w1 =~= b + w);
        lemma_rx_run_escaped(b1, w1, tail);
        lemma_rx_receiving_step(b, x);
        let s = escape(w) + tail;
        let rest = escape(w1) + tail;
        let r1 = rx_run(rx_receiving(b1), rest);
        assert(escape(w) == esc1(x) + escape(w1));
        assert(s =~= esc1(x) + rest);
        if x == PROTOCOL_DELIMITER || x == PROTOCOL_ESC {
            let m1 = rx_step(rx_receiving(b), PROTOCOL_ESC);
            let s1 = s.drop_first();
            assert(s[0] == PROTOCOL_ESC);
            assert(s1[0] == x ^ 0x20u8);
            assert(s1.drop_first() =~= rest);
            assert(rx_step(m1, x ^ 0x20u8) == rx_receiving(b1));
            assert(!rx_stops(rx_receiving(b1)));
            assert(rx_run(m1, s1) == (r1.0, r1.1 + 1));
            assert(rx_run(rx_receiving(b), s) == (r1.0, r1.1 + 2));
        } else {
            assert(s[0] == x);
            assert(s.drop_first() =~= rest);
            assert(!rx_stops(rx_receiving(b1)));
            assert(rx_run(rx_receiving(b), s) == (r1.0, r1.1 + 1));
        }
    }
}

proof fn lemma_be32(c: u32)
    ensures
        be_u32(be32(c)) == c,
{
    let t = be32(c);
    assert(((((c >> 24u32) as u8) as u32) << 24u32) | ((((c >> 16u32) as u8) as u32) << 16u32)
        | ((((c >> 8u32) as u8) as u32) << 8u32) | ((c as u8) as u32) == c) by (bit_vector);
}

proof fn lemma_be16(c: u16)
    ensures
        be_u16(be16(c)) == c,
{
    assert(((((c >> 8u16) as u8) as u16) << 8u16) | ((c as u8) as u16) == c) by (bit_vector);
}

/// The protocols and data for which a frame written by `to_usi` reads back
/// whole: the CRC-32 and CRC-16 protocols, and the PRIME API when the first
/// byte is a seven bit command; in all cases less than 1024 bytes, since the
/// header of the other protocols holds ten bits of length.
pub open spec fn frame_roundtrips(p: u8, data: Seq<u8>) -> bool {
    &&& data.len() < 1024
    &&& (out_uses_crc32(p) || uses_crc16(p) || (p == PROTOCOL_PRIME_API && data.len() >= 1
        && data[0] < 128))
}

proof fn lemma_frame_header(p: u8, data: Seq<u8>)
    requires
        frame_roundtrips(p, data),
    ensures
        ({
            let body = out_body(p, data);
            let full = body + out_crc(p, body);
            &&& full.len() >= 4
            &&& rx_receiving(full).protocol_type == Some(p)
            &&& rx_receiving(full).payload_len == data.len()
            &&& full.subrange(0, data.len() + 2int) == body
        }),
{
    let len = data.len();
    let body = out_body(p, data);
    let full = body + out_crc(p, body);
    assert(body.len() == len + 2);
    assert(full[0] == body[0] && full[1] == body[1]);
    if len > 0 {
        assert(full[2] == body[2]);
    }
    assert(body[1] % 64 == p);
    assert(body[0] as int == len / 4);
    assert(body[1] as int / 64 == len % 4);
    if p == PROTOCOL_PRIME_API {
        assert(body[2] == data[0]);
    }
    assert(rx_header_len(full) == len);
    assert(full.subrange(0, len + 2int) =~= body);
}

proof fn lemma_frame_crc(p: u8, data: Seq<u8>)
    requires
        frame_roundtrips(p, data),
    ensures
        ({
            let body = out_body(p, data);
            rx_check_crc(rx_receiving(body + out_crc(p, body)))
        }),
{
    lemma_frame_header(p, data);
    let body = out_body(p, data);
    let full = body + out_crc(p, body);
    let n = full.len();
    if out_uses_crc32(p) {
        assert(full.subrange(n - 4, n as int) =~= be32(crc32_spec(body)));
        lemma_be32(crc32_spec(body));
    } else if uses_crc16(p) {
        assert(full.subrange(n - 2, n as int) =~= be16(crc16_spec(body)));
        lemma_be16(crc16_spec(body));
    } else {
        assert(full[n - 1] == crc8_spec(body));
    }
}

proof fn lemma_frame_content(p: u8, data: Seq<u8>)
    requires
        frame_roundtrips(p, data),
    ensures
        ({
            let body = out_body(p, data);
            let m = rx_with_state(rx_receiving(body + out_crc(p, body)), RxState::RxDone);
            rx_content_ok(m) && rx_content(m) == data
        }),
{
    lemma_frame_header(p, data);
    let len = data.len();
    let body = out_body(p, data);
    let full = body + out_crc(p, body);
    let m = rx_with_state(rx_receiving(full), RxState::RxDone);
    assert(full.skip(2).take(len as int) =~= body.skip(2));
    if len > 0 {
        assert(out_first_byte(p, data) == data[0]);
        assert(body.skip(2) =~= data);
    } else {
        assert(body.skip(2) =~= data);
    }
    if p == PROTOCOL_PRIME_API {
        assert(data.update(0, data[0] % 128) =~= data);
    }
    assert(rx_content(m) =~= data);
}

/// A frame that `OutMessage::to_usi` writes, fed to a fresh receiver followed
/// by any bytes, is received whole: the receiver takes exactly the frame, ends
/// in `RxDone` with the sender's protocol and the data's length, its buffer
/// holds the two header bytes, the data (as it stands but for the PRIME API's
/// first byte) and the CRC (four bytes with CRC-32, two with CRC-16), and
/// `remove_header_and_crc` gives back the data that was sent.
#[verifier::spinoff_prover]
#[verifier::rlimit(40)]
pub proof fn lemma_usi_frame_roundtrip(p: u8, data: Seq<u8>, rest: Seq<u8>)
    requires
        frame_roundtrips(p, data),
    ensures
        ({
            let r = rx_run(rx_fresh(), usi_frame(p, data) + rest);
            &&& r.0.state == RxState::RxDone
            &&& r.1 == usi_frame(p, data).len()
            &&& r.0.protocol_type == Some(p)
            &&& r.0.payload_len == data.len()
            &&& r.0.buf == out_body(p, data) + out_crc(p, out_body(p, data))
            &&& out_uses_crc32(p) ==> r.0.buf.len() == data.len() + 6
            &&& (!out_uses_crc32(p) && uses_crc16(p)) ==> r.0.buf.len() == data.len() + 4
            &&& p != PROTOCOL_PRIME_API ==> r.0.buf.subrange(2, data.len() + 2int) == data
            &&& rx_content_ok(r.0)
            &&& rx_content(r.0) == data
        }),
{
    let body = out_body(p, data);
    let full = body + out_crc(p, body);
    let f = usi_frame(p, data);
    let s = f + rest;
    let end = seq![PROTOCOL_DELIMITER] + rest;
    lemma_frame_header(p, data);
    lemma_frame_crc(p, data);
    lemma_frame_content(p, data);
    let m1 = rx_step(rx_fresh(), PROTOCOL_DELIMITER);
    assert(s[0] == PROTOCOL_DELIMITER);
    assert(m1 == rx_receiving(Seq::<u8>::empty()));
    assert(s.drop_first() =~= escape(full) + end);
    lemma_rx_run_escaped(Seq::<u8>::empty(), full, end);
    assert(Seq::<u8>::empty() + full =~= full);
    let m = rx_receiving(full);
    assert(end[0] == PROTOCOL_DELIMITER);
    let done = rx_step(m, PROTOCOL_DELIMITER);
    assert(done == rx_with_state(m, RxState::RxDone));
    assert(rx_run(m, end) == (done, 1int));
    assert(f.len() == escape(full).len() + 2);
    assert(rx_run(m1, s.drop_first()) == (done, escape(full).len() + 1int));
    assert(body.len() == data.len() + 2);
    if p != PROTOCOL_PRIME_API {
        if data.len() > 0 {
            assert(out_first_byte(p, data) == data[0]);
        }
        assert(full.subrange(2, data.len() + 2int) =~= body.skip(2));
        assert(body.skip(2) =~= data);
    }
}

impl InMessage {
    pub fn new() -> (r: Self)
        ensures
            r@ == rx_fresh(),
    {
        InMessage {
            rxState: RxState::RxIdle,
            buf: Vec::with_capacity(1024),
            payload_len: 0,
            protocol_type: None,
        }
    }

    pub fn get_state(&self) -> (r: &RxState)
        ensures
            *r == self.rxState,
    {
        return &self.rxState;
    }

    /// Cuts the received frame to its payload (see `rx_content`).
    /// Whether the received frame can have its header and CRC removed (see
    /// `rx_content_ok`).
    pub fn content_ok(&self) -> (r: bool)
        ensures
            r == rx_content_ok(self@),
    {
        let n = if self.buf.len() >= 2 {
            self.buf.len() - 2
        } else {
            self.buf.len()
        };
        self.payload_len <= n && (self.protocol_type != Some(PROTOCOL_PRIME_API) || self.payload_len
            >= 1)
    }

    pub fn remove_header_and_crc(&mut self)
        requires
            rx_content_ok(old(self)@),
        ensures
            final(self).buf@ == rx_content(old(self)@),
            final(self).rxState == old(self).rxState,
            final(self).protocol_type == old(self).protocol_type,
            final(self).payload_len == old(self).payload_len,
    {
        if self.buf.len() >= 2 {
            let n = self.buf.len();
            self.buf = vstd::slice::slice_to_vec(
                vstd::slice::slice_subrange(self.buf.as_slice(), 2, n),
            );
        }
        let ghost b = self.buf@;
        self.buf = vstd::slice::slice_to_vec(
            vstd::slice::slice_subrange(self.buf.as_slice(), 0, self.payload_len),
        );
        assert(self.buf@ =~= b.take(self.payload_len as int));
        if self.protocol_type == Some(PROTOCOL_PRIME_API) {
            let c = common::CMD_PROTOCOL(self.buf[0]);
            self.buf.set(0, c);
        }
        assert(self.buf@ =~= rx_content(old(self)@));
    }

    fn process_header(&mut self)
        ensures
            final(self)@ == rx_process_header(old(self)@),
    {
        if self.buf.len() < common::PROTOCOL_MIN_LEN as usize {
            return;
        }
        let b0 = self.buf[0];
        let b1 = self.buf[1];
        let b2 = self.buf[2];
        let proto = common::TYPE_PROTOCOL(b1);
        self.protocol_type = Some(proto);
        if proto == PROTOCOL_PRIME_API {
            self.payload_len = common::get_protocol_xlen(b0, b1, b2) as usize;
        } else {
            self.payload_len = common::get_protocol_len(b0 as u16, b1 as u16) as usize;
        }
    }

    fn check_crc(&self) -> (r: bool)
        requires
            rx_wf(self@),
        ensures
            r == rx_check_crc(self@),
    {
        if let Some(pt) = self.protocol_type {
            let n = self.buf.len();
            let e = self.payload_len + 2;
            if pt <= 7 {
                let rxCrc: u32 = (self.buf[n - 4] as u32) << 24u32 | (self.buf[n - 3] as u32)
                    << 16u32 | (self.buf[n - 2] as u32) << 8u32 | self.buf[n - 1] as u32;
                assert(rxCrc == be_u32(self.buf@.subrange(n - 4, n as int)));
                if e <= n {
                    let d = vstd::slice::slice_to_vec(
                        vstd::slice::slice_subrange(self.buf.as_slice(), 0, e),
                    );
                    return rxCrc == crc::evalCrc32(&d);
                }
            } else if pt == 0x13 || pt == 0x23 || pt == 0x24 || pt == 0x25 || pt == 0x26 || pt
                == 0x1F {
                let rxCrc: u16 = (self.buf[n - 2] as u16) << 8u16 | (self.buf[n - 1] as u16);
                assert(rxCrc == be_u16(self.buf@.subrange(n - 2, n as int)));
                if e <= n {
                    let d = vstd::slice::slice_to_vec(
                        vstd::slice::slice_subrange(self.buf.as_slice(), 0, e),
                    );
                    return rxCrc == crc::evalCrc16(&d);
                }
            } else if pt == PROTOCOL_PRIME_API {
                let rxCrc = self.buf[n - 1];
                if e <= n {
                    let d = vstd::slice::slice_to_vec(
                        vstd::slice::slice_subrange(self.buf.as_slice(), 0, e),
                    );
                    return rxCrc == crc::evalCrc8(&d);
                }
            }
        }
        return false;
    }

    fn process_ch(&mut self, ch: u8)
        requires
            rx_wf(old(self)@),
        ensures
            final(self)@ == rx_step(old(self)@, ch),
            rx_wf(final(self)@),
    {
        proof {
            lemma_rx_step_wf(self@, ch);
        }
        match self.rxState {
            RxState::RxIdle => {
                if ch == PROTOCOL_DELIMITER {
                    self.rxState = RxState::RxMsg;
                }
            },
            RxState::RxMsg => {
                if ch == PROTOCOL_ESC {
                    self.rxState = RxState::RxEsc;
                } else if ch == PROTOCOL_DELIMITER {
                    if self.buf.len() == 0 {
                        // two delimiters in a row: the end of a frame that was
                        // not read, then the start of the next one
                    } else {
                        if self.check_crc() {
                            self.rxState = RxState::RxDone;
                        } else {
                            self.rxState = RxState::RxError;
                        }
                    }
                } else {
                    self.buf.push(ch);
                    if self.protocol_type.is_none() {
                        self.process_header();
                    }
                }
            },
            RxState::RxEsc => {
                if ch == PROTOCOL_ESC {
                    self.rxState = RxState::RxError;
                } else {
                    self.buf.push(ch ^ 0x20);
                    self.process_header();
                    self.rxState = RxState::RxMsg;
                }
            },
            _ => {},
        }
    }

    /// Takes bytes from the front of `data` until the frame is complete or
    /// failed, or `data` is empty (see `rx_run`).
    pub fn process(&mut self, data: &mut std::collections::VecDeque<u8>)
        requires
            rx_wf(old(self)@),
        ensures
            final(self)@ == rx_run(old(self)@, old(data)@).0,
            final(data)@ == old(data)@.skip(rx_run(old(self)@, old(data)@).1),
            rx_wf(final(self)@),
    {
        let ghost m0 = self@;
        let ghost d0 = data@;
        let ghost mut k: int = 0;
        loop
            invariant_except_break
                rx_run(m0, d0).0 == rx_run(self@, data@).0,
                rx_run(m0, d0).1 == k + rx_run(self@, data@).1,
            invariant
                rx_wf(self@),
                0 <= k <= d0.len(),
                data@ == d0.skip(k),
            ensures
                final(self)@ == rx_run(m0, d0).0,
                data@ == d0.skip(rx_run(m0, d0).1),
                rx_wf(self@),
            decreases data@.len(),
        {
            let ghost before = self@;
            let ghost input = data@;
            if let Some(c) = data.pop_front() {
                self.process_ch(c);
                proof {
                    k = k + 1;
                    assert(data@ =~= d0.skip(k));
                    assert(input.drop_first() =~= data@);
                }
                match self.rxState {
                    RxState::RxDone => {
                        break;
                    },
                    RxState::RxError => {
                        break;
                    },
                    _ => {},
                }
            } else {
                break;
            }
        }
    }
}

/// Where the serial port's thread stands.
#[derive(PartialEq, Eq, Structural, Debug, Clone, Copy)]
pub enum PortState {
    Stopped,
    Starting,
    Started,
    Stopping,
}

} // verus!
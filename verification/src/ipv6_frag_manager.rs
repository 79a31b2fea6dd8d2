//! IPv6 fragmentation: the extension headers of a packet, the offset of its
//! upper layer payload, and the fragments that carry it in packets of at most
//! a given size.
use vstd::prelude::*;

use pnet_packet::ip::IpNextHeaderProtocol;
use pnet_packet::ipv6::{ExtensionIterable, Ipv6Packet, MutableFragmentPacket, MutableIpv6Packet};
use pnet_packet::{Packet, PacketSize};
use rand::Rng;

use crate::app_config::be2;
use crate::lbp_functions::{append_bytes, be4};

verus! {

/// The payload length field of an IPv6 header (bytes 4 and 5, big endian).
pub open spec fn ipv6_payload_length(p: Seq<u8>) -> int {
    p[4] as int * 256 + p[5] as int
}

/// The payload of an IPv6 packet as pnet gives it: the bytes after the 40
/// byte header, as many as the payload length field says and the buffer
/// holds.
pub open spec fn ipv6_payload(p: Seq<u8>) -> Seq<u8> {
    if p.len() <= 40 {
        Seq::empty()
    } else if 40 + ipv6_payload_length(p) <= p.len() {
        p.subrange(40, 40 + ipv6_payload_length(p))
    } else {
        p.subrange(40, p.len() as int)
    }
}

/// The extension headers that pnet reads from `b`, each as its next header
/// field and its size (the length field times 8, plus 8), one after the
/// other while at least two bytes are left.
pub open spec fn ext_chain(b: Seq<u8>) -> Seq<(u8, int)>
    decreases b.len(),
{
    if b.len() < 2 {
        Seq::empty()
    } else {
        let size = b[1] as int * 8 + 8;
        let next = if size <= b.len() {
            size
        } else {
            b.len() as int
        };
        seq![(b[0], size)] + ext_chain(b.skip(next))
    }
}

/// `pnet_packet::ipv6::Ipv6Packet::new` then `Packet::payload` (pnet_packet
/// 0.31): the packet view exists on the 40 byte header, and its payload is
/// sliced as `ipv6_payload` says (the generated code clamps the end to the
/// buffer, and gives nothing when the buffer ends at the header).
#[verifier::external_body]
fn ipv6_packet_payload(packet: &[u8]) -> (r: Vec<u8>)
    requires
        packet@.len() >= 40,
    ensures
        r@ == ipv6_payload(packet@),
{
    Ipv6Packet::new(packet).unwrap().payload().to_vec()
}

/// `pnet_packet::ipv6::ExtensionIterable` (pnet_packet 0.31), each extension
/// given as `get_next_header` and `PacketSize::packet_size`: the generated
/// iterator reads an extension while at least two bytes are left, its size is
/// the length byte times 8 plus 8, and it goes on after that many bytes (or
/// stops at the end).
#[verifier::external_body]
fn extension_headers(buf: &[u8]) -> (r: Vec<(u8, usize)>)
    ensures
        r@.len() == ext_chain(buf@).len(),
        forall|i: int|
            0 <= i < r@.len() ==> (#[trigger] r@[i]).0 == ext_chain(buf@)[i].0 && r@[i].1
                == ext_chain(buf@)[i].1,
{
    ExtensionIterable::new(buf).map(|e| (e.get_next_header().0, e.packet_size())).collect()
}

/// `pnet_packet::ipv6::MutableFragmentPacket` (pnet_packet 0.31) on eight
/// zero bytes, then `set_id`, `set_next_header`, `set_fragment_offset` and
/// `set_last_fragment`: the next header, a reserved zero byte, the offset
/// with its two low bits cleared and the "more fragments" bit set unless it
/// is the last, big endian, then the identification, big endian.
#[verifier::external_body]
fn fragment_header(id: u32, next_header: u8, offset: u16, last: bool) -> (r: [u8; 8])
    ensures
        r@ == seq![next_header, 0u8] + be2(
            (offset & 0xFFFC) | (if last {
                0u16
            } else {
                1u16
            }),
        ) + be4(id),
{
    let mut f_buffer = [0u8; 8];
    let mut fragment = MutableFragmentPacket::new(&mut f_buffer).unwrap();
    fragment.set_id(id);
    fragment.set_next_header(IpNextHeaderProtocol(next_header));
    fragment.set_fragment_offset(offset);
    fragment.set_last_fragment(last);
    f_buffer
}

/// `pnet_packet::ipv6::MutableIpv6Packet` (pnet_packet 0.31) on `buf`, then
/// `set_next_header` (byte 6) with the fragment header type 44 and
/// `set_payload_length` (bytes 4 and 5, big endian).
#[verifier::external_body]
fn set_fragment_fields(buf: &mut Vec<u8>, payload_length: u16)
    requires
        old(buf)@.len() >= 40,
    ensures
        final(buf)@ == old(buf)@.update(6, 44u8).update(4, be2(payload_length)[0]).update(
            5,
            be2(payload_length)[1],
        ),
{
    let mut p = MutableIpv6Packet::new(&mut buf[..]).unwrap();
    p.set_next_header(IpNextHeaderProtocol(44));
    p.set_payload_length(payload_length);
}

/// `rand::thread_rng().gen::<u32>()` (rand 0.8): random, so nothing is stated
/// of the result.
#[verifier::external_body]
fn random_u32() -> u32 {
    rand::thread_rng().gen()
}

/// The offset just past the first extension of the chain `c` whose next
/// header is a fragment header (44), that is where the fragment header
/// starts; `acc` is the offset where the chain starts.
pub open spec fn first_frag(c: Seq<(u8, int)>, acc: int) -> Option<int>
    decreases c.len(),
{
    if c.len() == 0 {
        None
    } else if c[0].0 == 44 {
        Some(acc + c[0].1)
    } else {
        first_frag(c.drop_first(), acc + c[0].1)
    }
}

/// Where the fragment header of an IPv6 packet starts, if one of the
/// extension headers read from its payload names one as its next header (a
/// fragment header right after the IPv6 header is not looked for).
pub open spec fn spec_fragment_offset(p: Seq<u8>) -> Option<int> {
    match first_frag(ext_chain(ipv6_payload(p)), 40) {
        Some(o) => Some(o),
        None => None,
    }
}

/// The total size of the extensions of a chain.
pub open spec fn chain_size(c: Seq<(u8, int)>) -> int
    decreases c.len(),
{
    if c.len() == 0 {
        0
    } else {
        c[0].1 + chain_size(c.drop_first())
    }
}

/// The next header values that start an extension chain (hop by hop options
/// among them).
pub open spec fn starts_extensions(h: u8) -> bool {
    h == 0 || h == 43 || h == 44 || h == 51 || h == 50 || h == 60 || h == 135 || h == 139 || h
        == 140 || h == 253 || h == 254
}

/// Where the upper layer payload of an IPv6 packet starts: right after the
/// header, or after all the extensions read from the payload.
pub open spec fn spec_true_payload_offset(p: Seq<u8>) -> int {
    if !starts_extensions(p[6]) {
        40
    } else {
        40 + chain_size(ext_chain(ipv6_payload(p)))
    }
}

proof fn lemma_ext_chain_bounds(b: Seq<u8>)
    ensures
        ext_chain(b).len() <= b.len(),
        0 <= chain_size(ext_chain(b)) <= 2048 * ext_chain(b).len(),
        forall|i: int|
            0 <= i < ext_chain(b).len() ==> 8 <= (#[trigger] ext_chain(b)[i]).1 <= 2048,
    decreases b.len(),
{
    if b.len() >= 2 {
        let size = b[1] as int * 8 + 8;
        let next = if size <= b.len() {
            size
        } else {
            b.len() as int
        };
        lemma_ext_chain_bounds(b.skip(next));
        let c = ext_chain(b);
        assert(c.drop_first() =~= ext_chain(b.skip(next)));
        assert forall|i: int| 0 <= i < c.len() implies 8 <= (#[trigger] c[i]).1 <= 2048 by {
            if i > 0 {
                assert(c[i] == ext_chain(b.skip(next))[i - 1]);
            }
        }
    }
}

proof fn lemma_payload_len(p: Seq<u8>)
    requires
        p.len() >= 40,
    ensures
        ipv6_payload(p).len() <= 65535,
{
}

/// Where the fragment header of an IPv6 packet starts, if an extension
/// header names one (see `spec_fragment_offset`).
pub fn get_fragment_offset(packet: &[u8]) -> (r: Option<usize>)
    requires
        packet@.len() >= 40,
    ensures
        r matches Some(o) ==> spec_fragment_offset(packet@) == Some(o as int),
        r is None ==> spec_fragment_offset(packet@) is None,
{
    let payload = ipv6_packet_payload(packet);
    let exts = extension_headers(payload.as_slice());
    let ghost c = ext_chain(payload@);
    proof {
        lemma_payload_len(packet@);
        lemma_ext_chain_bounds(payload@);
    }
    let mut offset: usize = 0;
    let mut i: usize = 0;
    assert(c.skip(0) =~= c);
    while i < exts.len()
        invariant
            i <= exts@.len(),
            exts@.len() == c.len(),
            c.len() <= 65535,
            forall|k: int| 0 <= k < c.len() ==> 8 <= (#[trigger] c[k]).1 <= 2048,
            forall|k: int|
                0 <= k < exts@.len() ==> (#[trigger] exts@[k]).0 == c[k].0 && exts@[k].1 == c[k].1,
            offset <= 2048 * i,
            c == ext_chain(ipv6_payload(packet@)),
            first_frag(c, 40) == first_frag(c.skip(i as int), 40 + offset),
        decreases exts.len() - i,
    {
        let (h, size) = exts[i];
        assert(c.skip(i as int).drop_first() =~= c.skip(i + 1));
        assert(c.skip(i as int)[0] == c[i as int]);
        let ghost before = offset as int;
        offset = offset + size;
        if h == 44 {
            assert(first_frag(c.skip(i as int), 40 + before) == Some(40 + before + size));
            return Some(offset + 40);
        }
        i = i + 1;
    }
    assert(c.skip(i as int) =~= Seq::<(u8, int)>::empty());
    None
}

/// Where the upper layer payload of an IPv6 packet starts (see
/// `spec_true_payload_offset`).
pub fn get_true_payload_offset(packet: &[u8]) -> (r: usize)
    requires
        packet@.len() >= 40,
    ensures
        r == spec_true_payload_offset(packet@),
{
    if !is_extension_start(packet[6]) {
        return 40;
    }
    let payload = ipv6_packet_payload(packet);
    let exts = extension_headers(payload.as_slice());
    let ghost c = ext_chain(payload@);
    proof {
        lemma_payload_len(packet@);
        lemma_ext_chain_bounds(payload@);
    }
    let mut offset: usize = 0;
    let mut i: usize = 0;
    assert(c.skip(0) =~= c);
    while i < exts.len()
        invariant
            i <= exts@.len(),
            exts@.len() == c.len(),
            c.len() <= 65535,
            forall|k: int| 0 <= k < c.len() ==> 8 <= (#[trigger] c[k]).1 <= 2048,
            forall|k: int|
                0 <= k < exts@.len() ==> (#[trigger] exts@[k]).0 == c[k].0 && exts@[k].1 == c[k].1,
            offset <= 2048 * i,
            chain_size(c) == offset + chain_size(c.skip(i as int)),
        decreases exts.len() - i,
    {
        let (_, size) = exts[i];
        assert(c.skip(i as int).drop_first() =~= c.skip(i + 1));
        offset = offset + size;
        i = i + 1;
    }
    assert(c.skip(i as int) =~= Seq::<(u8, int)>::empty());
    offset + 40
}

fn is_extension_start(h: u8) -> (r: bool)
    ensures
        r == starts_extensions(h),
{
    h == 0 || h == 43 || h == 44 || h == 51 || h == 50 || h == 60 || h == 135 || h == 139 || h
        == 140 || h == 253 || h == 254
}

/// The protocol of the upper layer payload: the packet's next header, or,
/// when that starts an extension chain, the next header of its last
/// extension (253, the first test value, when none is read).
pub open spec fn spec_true_payload(p: Seq<u8>) -> u8 {
    if !starts_extensions(p[6]) {
        p[6]
    } else {
        let c = ext_chain(ipv6_payload(p));
        if c.len() == 0 {
            253
        } else {
            c.last().0
        }
    }
}

/// The protocol of the upper layer payload (see `spec_true_payload`).
pub fn get_true_payload(packet: &[u8]) -> (r: u8)
    requires
        packet@.len() >= 40,
    ensures
        r == spec_true_payload(packet@),
{
    if !is_extension_start(packet[6]) {
        return packet[6];
    }
    let payload = ipv6_packet_payload(packet);
    let exts = extension_headers(payload.as_slice());
    if exts.len() == 0 {
        253
    } else {
        exts[exts.len() - 1].0
    }
}

/// Whether a next header value names an IPv6 extension header (routing,
/// fragment, authentication, security payload, destination options,
/// mobility, host identity, shim6, or one of the two test values).
pub fn is_extension(protocol: u8) -> (r: bool)
    ensures
        r == (protocol == 43 || protocol == 44 || protocol == 51 || protocol == 50 || protocol
            == 60 || protocol == 135 || protocol == 139 || protocol == 140 || protocol == 253
            || protocol == 254),
{
    protocol == 43 || protocol == 44 || protocol == 51 || protocol == 50 || protocol == 60
        || protocol == 135 || protocol == 139 || protocol == 140 || protocol == 253 || protocol
        == 254
}

/// The largest multiple of 8 that fits in a fragment of at most `max_size`
/// bytes after `f` bytes of headers and the 8 byte fragment header.
pub open spec fn spec_fragment_room(f: int, max_size: int) -> int {
    ((max_size - (f + 8)) / 8) * 8
}

/// The fragment that carries `s` bytes of the upper layer payload from
/// offset `off` on: the IPv6 header with next header 44 and payload length
/// `s`, the fragment header, the extensions, then the bytes.
pub open spec fn spec_fragment(p: Seq<u8>, f: int, id: u32, off: int, s: int, last: bool) -> Seq<
    u8,
> {
    let h = p.subrange(0, 40);
    h.update(6, 44u8).update(4, be2(s as u16)[0]).update(5, be2(s as u16)[1]) + seq![
        p[6],
        0u8,
    ] + be2(((off as u16) & 0xFFFC) | (if last {
        0u16
    } else {
        1u16
    })) + be4(id) + p.subrange(40, f) + p.subrange(f + off, f + off + s)
}

/// The fragments from offset `off` on, of `n` bytes of payload after `f`
/// bytes of headers, `a` bytes each but the last.
pub open spec fn spec_fragments_from(
    p: Seq<u8>,
    f: int,
    a: int,
    n: int,
    id: u32,
    off: int,
) -> Seq<Seq<u8>>
    decreases n - off,
    when a > 0
{
    if off >= n {
        Seq::empty()
    } else if n - off > a {
        seq![spec_fragment(p, f, id, off, a, false)] + spec_fragments_from(p, f, a, n, id, off + a)
    } else {
        seq![spec_fragment(p, f, id, off, n - off, true)]
    }
}

/// Whether `fragment_packet` goes through on `p`: a packet that needs
/// fragmenting must leave room for at least 8 bytes per fragment after its
/// headers, and its first fragment must fit a buffer of 2048 bytes.
pub open spec fn spec_fragmentation_ok(p: Seq<u8>, max_size: int) -> bool {
    let f = spec_true_payload_offset(p);
    let a = spec_fragment_room(f, max_size);
    let n = p.len() - f;
    &&& p.len() >= 40
    &&& (p.len() >= max_size && spec_fragment_offset(p) is None) ==> {
        &&& f <= p.len()
        &&& f + 16 <= max_size
        &&& f + 8 + (if n < a {
            n
        } else {
            a
        }) <= 2048
    }
}

/// What `fragment_packet` gives for `p`, with `id` as the identification of
/// the fragments: a packet shorter than `max_size` as it is, nothing for one
/// that is already a fragment, else its fragments.
pub open spec fn spec_fragment_packet(p: Seq<u8>, max_size: int, id: u32) -> Seq<Seq<u8>> {
    if p.len() < max_size {
        seq![p]
    } else if spec_fragment_offset(p) is Some {
        Seq::empty()
    } else {
        let f = spec_true_payload_offset(p);
        spec_fragments_from(p, f, spec_fragment_room(f, max_size), p.len() - f, id, 0)
    }
}

pub open spec fn views(v: Seq<Vec<u8>>) -> Seq<Seq<u8>> {
    v.map_values(|x: Vec<u8>| x@)
}

/// Splits an IPv6 packet into fragments of at most `max_size` bytes, with
/// `id` as their identification (see `spec_fragment_packet`).
pub fn fragment_packet_with_id(packet: &[u8], max_size: usize, id: u32) -> (r: Vec<Vec<u8>>)
    requires
        spec_fragmentation_ok(packet@, max_size as int),
    ensures
        views(r@) == spec_fragment_packet(packet@, max_size as int, id),
{
    let mut result: Vec<Vec<u8>> = Vec::new();
    if packet.len() < max_size {
        result.push(vstd::slice::slice_to_vec(packet));
        assert(views(result@) =~= seq![packet@]);
        return result;
    }
    if get_fragment_offset(packet).is_some() {
        assert(views(result@) =~= Seq::<Seq<u8>>::empty());
        return result;
    }
    let fixed_size = get_true_payload_offset(packet);
    proof {
        lemma_ext_chain_bounds(ipv6_payload(packet@));
    }
    let n = packet.len() - fixed_size;
    let mut payload_size = n;
    let available_payload_size = ((max_size - (fixed_size + 8)) / 8) * 8;
    let ghost a = available_payload_size as int;
    assert(a > 0) by (nonlinear_arith)
        requires
            a == ((max_size - (fixed_size + 8)) / 8) * 8,
            fixed_size + 16 <= max_size,
    ;
    let mut frag_offset: usize = 0;
    let next_header = packet[6];
    let ghost p = packet@;
    let ghost f = fixed_size as int;
    while payload_size > 0
        invariant
            p == packet@,
            f == fixed_size,
            a == available_payload_size,
            a > 0,
            40 <= f <= p.len(),
            p.len() <= usize::MAX,
            f + 8 + a <= max_size,
            n == p.len() - f,
            next_header == p[6],
            payload_size + frag_offset == n,
            views(result@) + spec_fragments_from(p, f, a, n as int, id, frag_offset as int)
                == spec_fragments_from(p, f, a, n as int, id, 0),
        decreases payload_size,
    {
        let last = payload_size <= available_payload_size;
        let s = if last {
            payload_size
        } else {
            available_payload_size
        };
        let mut buf: Vec<u8> = Vec::new();
        append_bytes(&mut buf, vstd::slice::slice_subrange(packet, 0, 40));
        set_fragment_fields(&mut buf, s as u16);
        let header = fragment_header(id, next_header, frag_offset as u16, last);
        append_bytes(&mut buf, &header);
        append_bytes(&mut buf, vstd::slice::slice_subrange(packet, 40, fixed_size));
        append_bytes(
            &mut buf,
            vstd::slice::slice_subrange(packet, fixed_size + frag_offset, fixed_size + frag_offset + s),
        );
        assert(buf@ =~= spec_fragment(p, f, id, frag_offset as int, s as int, last));
        let ghost before = views(result@);
        result.push(buf);
        assert(views(result@) =~= before.push(
            spec_fragment(p, f, id, frag_offset as int, s as int, last),
        ));
        if last {
            assert(spec_fragments_from(p, f, a, n as int, id, (frag_offset + s) as int)
                =~= Seq::<Seq<u8>>::empty());
        }
        payload_size = payload_size - s;
        frag_offset = frag_offset + s;
    }
    assert(spec_fragments_from(p, f, a, n as int, id, frag_offset as int) =~= Seq::<
        Seq<u8>,
    >::empty());
    result
}

/// The data that fragments carry after `h` bytes of headers each, put
/// together in order.
pub open spec fn fragment_data(frags: Seq<Seq<u8>>, h: int) -> Seq<u8>
    decreases frags.len(),
{
    if frags.len() == 0 {
        Seq::empty()
    } else {
        frags[0].skip(h) + fragment_data(frags.drop_first(), h)
    }
}

proof fn lemma_fragments_from(p: Seq<u8>, f: int, a: int, n: int, id: u32, off: int)
    requires
        a > 0,
        40 <= f,
        f + n == p.len(),
        0 <= off <= n,
    ensures
        fragment_data(spec_fragments_from(p, f, a, n, id, off), f + 8) == p.subrange(
            f + off,
            f + n,
        ),
        forall|i: int|
            0 <= i < spec_fragments_from(p, f, a, n, id, off).len() ==> (#[trigger] spec_fragments_from(
                p,
                f,
                a,
                n,
                id,
                off,
            )[i]).len() <= f + 8 + a,
    decreases n - off,
{
    let fr = spec_fragments_from(p, f, a, n, id, off);
    if off >= n {
        assert(p.subrange(f + off, f + n) =~= Seq::<u8>::empty());
    } else {
        let s = if n - off > a {
            a
        } else {
            n - off
        };
        let x = spec_fragment(p, f, id, off, s, n - off <= a);
        assert(x.len() == f + 8 + s);
        assert(x.skip(f + 8) =~= p.subrange(f + off, f + off + s));
        assert(fr[0] == x);
        if n - off > a {
            let rest = spec_fragments_from(p, f, a, n, id, off + a);
            lemma_fragments_from(p, f, a, n, id, off + a);
            assert(fr.drop_first() =~= rest);
            assert(fragment_data(fr, f + 8) == x.skip(f + 8) + fragment_data(rest, f + 8));
            assert(p.subrange(f + off, f + n) =~= p.subrange(f + off, f + off + a) + p.subrange(
                f + off + a,
                f + n,
            ));
            assert forall|i: int| 0 <= i < fr.len() implies (#[trigger] fr[i]).len() <= f + 8 + a by {
                if i > 0 {
                    assert(fr[i] == rest[i - 1]);
                }
            }
        } else {
            assert(fr.drop_first() =~= Seq::<Seq<u8>>::empty());
            assert(fragment_data(fr.drop_first(), f + 8) =~= Seq::<u8>::empty());
            assert(fragment_data(fr, f + 8) == x.skip(f + 8) + fragment_data(
                fr.drop_first(),
                f + 8,
            ));
            assert(p.subrange(f + off, f + n) =~= p.subrange(f + off, f + off + s) + Seq::<
                u8,
            >::empty());
        }
    }
}

/// A packet that needs fragmenting is cut into fragments of at most
/// `max_size` bytes, and the data of the fragments (what follows the IPv6
/// header, the fragment header and the extensions of each), put together in
/// order, is the upper layer payload of the packet.
pub proof fn lemma_fragments_reassemble(p: Seq<u8>, max_size: int, id: u32)
    requires
        spec_fragmentation_ok(p, max_size),
        p.len() >= max_size,
        spec_fragment_offset(p) is None,
    ensures
        forall|i: int|
            0 <= i < spec_fragment_packet(p, max_size, id).len() ==> (
            #[trigger] spec_fragment_packet(p, max_size, id)[i]).len() <= max_size,
        fragment_data(spec_fragment_packet(p, max_size, id), spec_true_payload_offset(p) + 8)
            == p.skip(spec_true_payload_offset(p)),
{
    let f = spec_true_payload_offset(p);
    let a = spec_fragment_room(f, max_size);
    lemma_ext_chain_bounds(ipv6_payload(p));
    assert(f >= 40);
    assert(a > 0 && f + 8 + a <= max_size) by (nonlinear_arith)
        requires
            a == ((max_size - (f + 8)) / 8) * 8,
            f + 16 <= max_size,
    ;
    lemma_fragments_from(p, f, a, p.len() - f, id, 0);
    assert(p.subrange(f, p.len() as int) =~= p.skip(f));
}

/// Every fragment from offset `off` on starts with the packet's IPv6 header
/// naming a fragment header, whose next header is the packet's own next
/// header, and then the packet's extensions.
proof fn lemma_fragments_from_headers(p: Seq<u8>, f: int, a: int, n: int, id: u32, off: int)
    requires
        a > 0,
        40 <= f,
        f + n == p.len(),
        0 <= off <= n,
    ensures
        forall|i: int|
            0 <= i < spec_fragments_from(p, f, a, n, id, off).len() ==> {
                let x = #[trigger] spec_fragments_from(p, f, a, n, id, off)[i];
                &&& x.len() >= f + 8
                &&& x[6] == 44
                &&& x[40] == p[6]
                &&& x.subrange(0, 4) == p.subrange(0, 4)
                &&& x.subrange(7, 40) == p.subrange(7, 40)
                &&& x.subrange(48, f + 8) == p.subrange(40, f)
            },
    decreases n - off,
{
    let fr = spec_fragments_from(p, f, a, n, id, off);
    if off < n {
        let s = if n - off > a {
            a
        } else {
            n - off
        };
        let x = spec_fragment(p, f, id, off, s, n - off <= a);
        assert(x.len() == f + 8 + s);
        assert(x[6] == 44);
        assert(x[40] == p[6]);
        assert(x.subrange(0, 4) =~= p.subrange(0, 4));
        assert(x.subrange(7, 40) =~= p.subrange(7, 40));
        assert(x.subrange(48, f + 8) =~= p.subrange(40, f));
        assert(fr[0] == x);
        if n - off > a {
            let rest = spec_fragments_from(p, f, a, n, id, off + a);
            lemma_fragments_from_headers(p, f, a, n, id, off + a);
            assert forall|i: int| 0 <= i < fr.len() implies {
                let y = #[trigger] fr[i];
                &&& y.len() >= f + 8
                &&& y[6] == 44
                &&& y[40] == p[6]
                &&& y.subrange(0, 4) == p.subrange(0, 4)
                &&& y.subrange(7, 40) == p.subrange(7, 40)
                &&& y.subrange(48, f + 8) == p.subrange(40, f)
            } by {
                if i > 0 {
                    assert(fr[i] == rest[i - 1]);
                }
            }
        }
    }
}

/// The fragments of a packet that needs fragmenting keep its header chain:
/// each has the packet's IPv6 header (but for the payload length and the
/// next header, which names the fragment header), a fragment header whose
/// next header is the packet's own next header, then the packet's
/// extensions, so the chain after the fragment header reads as in the
/// packet.
pub proof fn lemma_fragment_headers(p: Seq<u8>, max_size: int, id: u32)
    requires
        spec_fragmentation_ok(p, max_size),
        p.len() >= max_size,
        spec_fragment_offset(p) is None,
    ensures
        forall|i: int|
            0 <= i < spec_fragment_packet(p, max_size, id).len() ==> {
                let x = #[trigger] spec_fragment_packet(p, max_size, id)[i];
                &&& x[6] == 44
                &&& x[40] == p[6]
                &&& x.subrange(0, 4) == p.subrange(0, 4)
                &&& x.subrange(7, 40) == p.subrange(7, 40)
                &&& x.subrange(48, spec_true_payload_offset(p) + 8) == p.subrange(
                    40,
                    spec_true_payload_offset(p),
                )
            },
{
    let f = spec_true_payload_offset(p);
    let a = spec_fragment_room(f, max_size);
    lemma_ext_chain_bounds(ipv6_payload(p));
    assert(a > 0 && f + 8 + a <= max_size) by (nonlinear_arith)
        requires
            a == ((max_size - (f + 8)) / 8) * 8,
            f + 16 <= max_size,
    ;
    lemma_fragments_from_headers(p, f, a, p.len() - f, id, 0);
}

/// Splits an IPv6 packet into fragments of at most `max_size` bytes (see
/// `spec_fragment_packet`), with a random identification.
pub fn fragment_packet(packet: &[u8], max_size: usize) -> (r: Vec<Vec<u8>>)
    requires
        spec_fragmentation_ok(packet@, max_size as int),
    ensures
        exists|id: u32| views(r@) == spec_fragment_packet(packet@, max_size as int, id),
{
    let id = random_u32();
    fragment_packet_with_id(packet, max_size, id)
}

} // verus!

use ne_g3::ipv6_frag_manager::{
    fragment_packet, fragment_packet_with_id, get_fragment_offset, get_true_payload,
    get_true_payload_offset, is_extension,
};

fn packet(next_header: u8, payload: &[u8]) -> Vec<u8> {
    let mut p = vec![0u8; 40];
    p[0] = 0x60;
    p[4] = (payload.len() >> 8) as u8;
    p[5] = payload.len() as u8;
    p[6] = next_header;
    p[7] = 64;
    p.extend_from_slice(payload);
    p
}

#[test]
fn small_packet_is_kept() {
    let p = packet(17, &[1, 2, 3]);
    assert_eq!(fragment_packet_with_id(&p, 1280, 7), vec![p.clone()]);
    assert_eq!(fragment_packet(&p, 1280), vec![p]);
}

#[test]
fn fragment_offset_of_a_fragment() {
    // hop by hop options naming a fragment header, then the fragment header
    let mut payload = vec![44, 0, 1, 4, 0, 0, 0, 0];
    payload.extend_from_slice(&[17, 0, 0, 0, 0, 0, 0, 1]);
    let p = packet(0, &payload);
    assert_eq!(get_fragment_offset(&p), Some(48));
    assert_eq!(fragment_packet_with_id(&p, 40, 1), Vec::<Vec<u8>>::new());
    // a fragment header right after the IPv6 header is not looked for
    let q = packet(44, &[17, 0, 0, 0, 0, 0, 0, 1]);
    assert_eq!(get_fragment_offset(&q), None);
}

#[test]
fn no_fragment_header() {
    let p = packet(17, &[0x11, 0x00, 1, 2]);
    // the UDP bytes are read as an extension whose next header is 17
    assert_eq!(get_fragment_offset(&p), None);
    assert_eq!(get_true_payload_offset(&p), 40);
    assert_eq!(get_true_payload(&p), 17);
}

#[test]
fn hop_by_hop_chain() {
    // hop by hop options (length 0: 8 bytes) pointing to UDP, then 8 more bytes
    let mut payload = vec![17, 0, 1, 4, 0, 0, 0, 0];
    payload.extend_from_slice(&[58, 0, 0, 0, 0, 0, 0, 0]);
    let p = packet(0, &payload);
    assert_eq!(get_true_payload_offset(&p), 56);
    assert_eq!(get_true_payload(&p), 58);
    let q = packet(0, &[]);
    assert_eq!(get_true_payload_offset(&q), 40);
    assert_eq!(get_true_payload(&q), 253);
}

#[test]
fn extension_values() {
    for h in [43u8, 44, 51, 50, 60, 135, 139, 140, 253, 254] {
        assert!(is_extension(h));
    }
    assert!(!is_extension(0));
    assert!(!is_extension(17));
}

#[test]
fn large_packet_is_fragmented() {
    let payload: Vec<u8> = (0..60u8).collect();
    let p = packet(17, &payload);
    let frags = fragment_packet_with_id(&p, 64, 0x01020304);
    // room for 16 bytes per fragment: 16, 16, 16 and 12
    assert_eq!(frags.len(), 4);
    let sizes = [16usize, 16, 16, 12];
    for (k, f) in frags.iter().enumerate() {
        let s = sizes[k];
        let off = 16 * k;
        assert_eq!(f.len(), 48 + s);
        assert_eq!(&f[..4], &p[..4]);
        assert_eq!(&f[4..6], &[0, s as u8]);
        assert_eq!(f[6], 44);
        assert_eq!(&f[7..40], &p[7..40]);
        let last = k == 3;
        assert_eq!(f[40], 17);
        assert_eq!(f[41], 0);
        let field = (off as u16 & 0xFFFC) | if last { 0 } else { 1 };
        assert_eq!(&f[42..44], &field.to_be_bytes());
        assert_eq!(&f[44..48], &[1, 2, 3, 4]);
        assert_eq!(&f[48..], &payload[off..off + s]);
    }
    let r = fragment_packet(&p, 64);
    assert_eq!(r.len(), 4);
    assert_eq!(&r[0][..40], &frags[0][..40]);
}

#[test]
fn fragments_put_back_together() {
    let data: Vec<u8> = (0..100u8).map(|b| b.wrapping_mul(7)).collect();
    let p = packet(17, &data);
    let f = get_true_payload_offset(&p);
    assert_eq!(f, 40);
    let frags = fragment_packet_with_id(&p, 90, 9);
    // room for 40 bytes per fragment: 40, 40 and 20
    assert_eq!(frags.len(), 3);
    let mut joined = Vec::new();
    for fr in &frags {
        assert!(fr.len() <= 90);
        joined.extend_from_slice(&fr[f + 8..]);
    }
    assert_eq!(joined, data);
}

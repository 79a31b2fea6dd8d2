use aes::cipher::generic_array::GenericArray;
use aes::{Aes128, BlockEncrypt, NewBlockCipher};
use cmac::{Cmac, Mac, NewMac};
use eax::aead::{Aead, Payload};
use eax::{Eax, NewAead};

use ne_g3::lbp_functions::{
    TEapPskContext, TEapPskKey, TEapPskRand, TEapPskNetworkAccessIdentifier, TEapPskNetworkAccessIdentifierS, eap_psk_initialize, eap_psk_initialize_tek, eap_psk_encode_message1, eap_psk_decode_message, eap_psk_decode_message1, eap_psk_encode_message2, eap_psk_decode_message2, eap_psk_decode_message3, eap_psk_encode_message4, EAP_PSK_Encode_Message3, EAP_PSK_Decode_Message4, EAP_PSK_Encode_EAP_Success, EAP_PSK_Encode_GMK_Activation, EAP_REQUEST, EAP_RESPONSE, EAP_SUCCESS, EAP_PSK_IANA_TYPE, EAP_PSK_T0, EAP_PSK_T1, EAP_PSK_T2, EAP_PSK_T3, PCHANNEL_RESULT_DONE_SUCCESS,
};

const KEY: [u8; 16] = [
    0xAB, 0x10, 0x34, 0x11, 0x45, 0x11, 0x1B, 0xC3, 0xC1, 0x2D, 0xE8, 0xFF, 0x11, 0x14, 0x22, 0x04,
];

fn aes(key: &[u8; 16], block: [u8; 16]) -> [u8; 16] {
    let c = Aes128::new(GenericArray::from_slice(key));
    let mut b = GenericArray::clone_from_slice(&block);
    c.encrypt_block(&mut b);
    b.into()
}

fn cmac(key: &[u8; 16], msg: &[u8]) -> Vec<u8> {
    let mut m = Cmac::<Aes128>::new(GenericArray::from_slice(key));
    m.update(msg);
    m.finalize().into_bytes().to_vec()
}

fn context() -> TEapPskContext {
    let mut ctx = TEapPskContext::new();
    assert!(eap_psk_initialize(&TEapPskKey(KEY), &mut ctx));
    ctx
}

#[test]
fn aes_known_answer() {
    // FIPS-197, appendix C.1
    let key: [u8; 16] = core::array::from_fn(|i| i as u8);
    let pt: [u8; 16] = core::array::from_fn(|i| (i as u8) * 0x11);
    assert_eq!(
        aes(&key, pt),
        [0x69, 0xc4, 0xe0, 0xd8, 0x6a, 0x7b, 0x04, 0x30, 0xd8, 0xcd, 0xb7, 0x80, 0x70, 0xb4, 0xc5, 0x5a]
    );
}

#[test]
fn key_derivation() {
    let ctx = context();
    let mut b = aes(&KEY, [0; 16]);
    b[15] ^= 1;
    assert_eq!(ctx.m_Ak.0, aes(&KEY, b));
    b[15] ^= 3;
    assert_eq!(ctx.m_Kdk.0, aes(&KEY, b));
    assert_ne!(ctx.m_Ak.0, ctx.m_Kdk.0);
    assert_eq!(ctx.m_Tek.0, [0; 16]);
}

#[test]
fn tek_derivation() {
    let mut ctx = context();
    let rand_p = TEapPskRand([7; 16]);
    assert!(eap_psk_initialize_tek(&rand_p, &mut ctx));
    let mut v = aes(&ctx.m_Kdk.0, [7; 16]);
    v[15] ^= 1;
    assert_eq!(ctx.m_Tek.0, aes(&ctx.m_Kdk.0, v));
}

#[test]
fn message1_reads_back() {
    let rand_s = TEapPskRand([0x5A; 16]);
    let id_s = TEapPskNetworkAccessIdentifierS(vec![1, 2, 3, 4, 5, 6, 7, 8]);
    let m = eap_psk_encode_message1(9, &rand_s, &id_s);
    assert_eq!(m.len(), 30);
    assert_eq!(&m[..6], &[EAP_REQUEST, 9, 0, 30, EAP_PSK_IANA_TYPE, EAP_PSK_T0]);
    let (mut code, mut ident, mut t) = (0u8, 0u8, 0u8);
    let mut data = Vec::new();
    assert!(eap_psk_decode_message(&m, &mut code, &mut ident, &mut t, &mut data));
    assert_eq!((code, ident, t), (EAP_REQUEST, 9, EAP_PSK_T0));
    let mut r = TEapPskRand::new();
    let mut id = TEapPskNetworkAccessIdentifier::new();
    assert!(eap_psk_decode_message1(&data, &mut r, &mut id));
    assert_eq!(r.0, [0x5A; 16]);
    assert_eq!(id.0, vec![1, 2, 3, 4, 5, 6, 7, 8]);
}

#[test]
fn decode_rejects_bad_headers() {
    let (mut code, mut ident, mut t) = (0u8, 0u8, 0u8);
    let mut data = Vec::new();
    assert!(!eap_psk_decode_message(&vec![1, 2, 3], &mut code, &mut ident, &mut t, &mut data));
    assert_eq!((code, ident), (0, 0));
    // length field larger than the message
    assert!(!eap_psk_decode_message(&vec![8, 1, 0, 9, 0x2F, 0x40], &mut code, &mut ident, &mut t, &mut data));
    assert_eq!((code, ident), (8, 1));
    // wrong EAP type
    assert!(!eap_psk_decode_message(&vec![8, 1, 0, 6, 0x30, 0x40], &mut code, &mut ident, &mut t, &mut data));
    // a length field below 6 carries no T subfield
    let mut t2 = 0x55u8;
    assert!(eap_psk_decode_message(&vec![8, 1, 0, 4], &mut code, &mut ident, &mut t2, &mut data));
    assert_eq!(t2, 0x55);
    let mut r = TEapPskRand::new();
    let mut id = TEapPskNetworkAccessIdentifier::new();
    assert!(!eap_psk_decode_message1(&vec![0; 15], &mut r, &mut id));
}

#[test]
fn message2_accepted_by_server() {
    let ctx = context();
    let rand_s = TEapPskRand([1; 16]);
    let rand_p = TEapPskRand([2; 16]);
    let id_s = TEapPskNetworkAccessIdentifier(vec![3; 8]);
    let id_p = TEapPskNetworkAccessIdentifier(vec![4; 8]);
    let mut buf: Vec<u8> = Vec::with_capacity(64);
    eap_psk_encode_message2(&ctx, 5, &rand_s, &rand_p, &id_s, &id_p, &mut buf);
    assert_eq!(buf.len(), 62);
    assert_eq!(&buf[..6], &[EAP_RESPONSE, 5, 0, 62, EAP_PSK_IANA_TYPE, EAP_PSK_T1]);
    let mut seed = vec![4u8; 8];
    seed.extend_from_slice(&[3; 8]);
    seed.extend_from_slice(&[1; 16]);
    seed.extend_from_slice(&[2; 16]);
    assert_eq!(&buf[38..54], cmac(&ctx.m_Ak.0, &seed).as_slice());

    let server_id_s = TEapPskNetworkAccessIdentifierS(vec![3; 8]);
    let mut rs = TEapPskRand::new();
    let mut rp = TEapPskRand::new();
    assert!(eap_psk_decode_message2(&buf[6..], &ctx, &server_id_s, &mut rs, &mut rp));
    assert_eq!(rs.0, [1; 16]);
    assert_eq!(rp.0, [2; 16]);
    let mut bad = buf.clone();
    bad[40] ^= 0x80;
    assert!(!eap_psk_decode_message2(&bad[6..], &ctx, &server_id_s, &mut rs, &mut rp));
}

#[test]
fn message2_needs_capacity() {
    let ctx = context();
    let mut buf: Vec<u8> = Vec::new();
    let r = TEapPskRand([0; 16]);
    let id = TEapPskNetworkAccessIdentifier(vec![]);
    eap_psk_encode_message2(&ctx, 1, &r, &r, &id, &id, &mut buf);
    assert!(buf.is_empty());
}

#[test]
fn message3_layout_and_encryption() {
    let mut ctx = context();
    eap_psk_initialize_tek(&TEapPskRand([9; 16]), &mut ctx);
    let ids = TEapPskNetworkAccessIdentifierS(vec![0x33; 8]);
    let out = EAP_PSK_Encode_Message3(
        &ctx,
        7,
        &TEapPskRand([1; 16]),
        &TEapPskRand([2; 16]),
        &ids,
        0x01020304,
        PCHANNEL_RESULT_DONE_SUCCESS,
        &[0xAA, 0xBB],
    )
    .unwrap();
    // header 38, nonce 4, tag 16, encrypted result byte and data
    assert_eq!(out.len(), 38 + 4 + 16 + 3);
    assert_eq!(&out[..6], &[EAP_REQUEST, 7, 0, 61, EAP_PSK_IANA_TYPE, EAP_PSK_T2]);
    assert_eq!(&out[6..22], &[1; 16]);
    let mut seed = vec![0x33u8; 8];
    seed.extend_from_slice(&[2; 16]);
    assert_eq!(&out[22..38], cmac(&ctx.m_Ak.0, &seed).as_slice());
    assert_eq!(&out[38..42], &[1, 2, 3, 4]);
    let mut nonce = [0u8; 16];
    nonce[12..].copy_from_slice(&[1, 2, 3, 4]);
    let mut aad = out[..22].to_vec();
    aad[0] >>= 2;
    let mut ct = out[58..].to_vec();
    ct.extend_from_slice(&out[42..58]);
    let cipher = Eax::<Aes128>::new(GenericArray::from_slice(&ctx.m_Tek.0));
    let plain = cipher
        .decrypt(GenericArray::from_slice(&nonce), Payload { msg: &ct, aad: &aad })
        .unwrap();
    assert_eq!(plain, vec![0xA0, 0xAA, 0xBB]);
}

#[test]
fn message4_layout_and_encryption() {
    let mut ctx = context();
    eap_psk_initialize_tek(&TEapPskRand([9; 16]), &mut ctx);
    let mut out = vec![0xFF];
    assert!(eap_psk_encode_message4(&ctx, 3, &TEapPskRand([6; 16]), 0x0A0B0C0D, 1, vec![], &mut out));
    assert_eq!(out.len(), 22 + 4 + 1 + 16);
    assert_eq!(&out[..6], &[EAP_RESPONSE, 3, 0, 43, EAP_PSK_IANA_TYPE, EAP_PSK_T3]);
    assert_eq!(&out[22..26], &[0x0A, 0x0B, 0x0C, 0x0D]);
    let mut nonce = [0u8; 16];
    nonce[12..].copy_from_slice(&[0x0A, 0x0B, 0x0C, 0x0D]);
    let mut aad = out[..22].to_vec();
    aad[0] >>= 2;
    aad[2] = 0;
    aad[3] = 0;
    let cipher = Eax::<Aes128>::new(GenericArray::from_slice(&ctx.m_Tek.0));
    let plain = cipher
        .decrypt(GenericArray::from_slice(&nonce), Payload { msg: &out[26..], aad: &aad })
        .unwrap();
    assert_eq!(plain, vec![0x40]);
}

#[test]
fn message4_decodes() {
    let mut ctx = context();
    eap_psk_initialize_tek(&TEapPskRand([9; 16]), &mut ctx);
    let header: Vec<u8> = (0..22).map(|i| i as u8 + 8).collect();
    let mut aad = header.clone();
    aad[0] >>= 2;
    let mut nonce = [0u8; 16];
    nonce[12..].copy_from_slice(&[1, 2, 3, 4]);
    let cipher = Eax::<Aes128>::new(GenericArray::from_slice(&ctx.m_Tek.0));
    let c = cipher
        .encrypt(
            GenericArray::from_slice(&nonce),
            Payload { msg: &[0x80, 0x11, 0x22, 0x33, 0x44], aad: &aad },
        )
        .unwrap();
    let mut m = vec![6u8; 16];
    m.extend_from_slice(&[1, 2, 3, 4]);
    m.extend_from_slice(&c[5..]);
    m.extend_from_slice(&c[..5]);
    let mut rs = TEapPskRand::new();
    let (mut nonce_v, mut result) = (0u32, 0u8);
    let mut data = Vec::new();
    assert!(EAP_PSK_Decode_Message4(&m, &ctx, &header, &mut rs, &mut nonce_v, &mut result, &mut data));
    assert_eq!(rs.0, [6; 16]);
    assert_eq!(result, 2);
    assert_eq!(data, vec![0x11, 0x22, 0x33, 0x44]);
    // the nonce is read big endian, as the encoders write it
    assert_eq!(nonce_v, 0x01020304);
    let mut bad = m.clone();
    bad[25] ^= 1;
    let mut data2 = vec![9];
    assert!(!EAP_PSK_Decode_Message4(&bad, &ctx, &header, &mut rs, &mut nonce_v, &mut result, &mut data2));
    assert_eq!(data2, vec![9]);
}

#[test]
fn message3_decode_fails_on_a_wrong_mac() {
    let ctx = context();
    let mut rs = TEapPskRand::new();
    let (mut n, mut res) = (0u32, 0u8);
    let mut data = Vec::new();
    let m = vec![0x42u8; 60];
    assert!(!eap_psk_decode_message3(&m, &ctx, vec![8; 22], &mut rs, &mut n, &mut res, &mut data));
    assert_eq!(rs.0, [0x42; 16]);
    assert_eq!((n, res), (0, 0));
    assert!(data.is_empty());
}

#[test]
fn message3_decodes() {
    let mut ctx = context();
    ctx.m_IdS = TEapPskNetworkAccessIdentifier(vec![0x33; 8]);
    ctx.m_RandP = TEapPskRand([2; 16]);
    eap_psk_initialize_tek(&TEapPskRand([9; 16]), &mut ctx);
    let header: Vec<u8> = (0..22).map(|i| i as u8 + 8).collect();
    let mut aad = header.clone();
    aad[0] >>= 2;
    let mut nonce = [0u8; 16];
    nonce[12..].copy_from_slice(&[0, 0, 1, 2]);
    let cipher = Eax::<Aes128>::new(GenericArray::from_slice(&ctx.m_Tek.0));
    let c = cipher
        .encrypt(GenericArray::from_slice(&nonce), Payload { msg: &[0x60, 0x55, 0x66, 1, 2, 3, 4], aad: &aad })
        .unwrap();
    let mut seed = vec![0x33u8; 8];
    seed.extend_from_slice(&[2; 16]);
    // 59 bytes: RandS, MacS, nonce, seven encrypted bytes and the tag
    let mut m = vec![1u8; 16];
    m.extend_from_slice(&cmac(&ctx.m_Ak.0, &seed));
    m.extend_from_slice(&[0, 0, 1, 2]);
    m.extend_from_slice(&c);
    let mut rs = TEapPskRand::new();
    let (mut n, mut res) = (0u32, 0u8);
    let mut data = Vec::new();
    assert!(eap_psk_decode_message3(&m, &ctx, header.clone(), &mut rs, &mut n, &mut res, &mut data));
    assert_eq!(rs.0, [1; 16]);
    assert_eq!(n, 0x0102);
    assert_eq!(res, 1);
    assert_eq!(data, vec![0x55, 0x66, 1, 2, 3, 4]);
    // a broken tag fails, and nothing but RandS is written
    let mut bad = m.clone();
    bad[40] ^= 1;
    let (mut n2, mut res2) = (7u32, 7u8);
    let mut data2 = vec![9];
    assert!(!eap_psk_decode_message3(&bad, &ctx, header, &mut rs, &mut n2, &mut res2, &mut data2));
    assert_eq!((n2, res2, data2), (7, 7, vec![9]));
}

#[test]
fn success_and_gmk_activation() {
    assert_eq!(EAP_PSK_Encode_EAP_Success(0x21), Some(vec![EAP_SUCCESS, 0x21, 0, 4]));
    let mut buf = vec![1];
    EAP_PSK_Encode_GMK_Activation(&vec![7, 8, 9, 10], &mut buf);
    assert_eq!(buf, vec![1, 7, 8, 9]);
}

#[test]
fn key_and_rand_from_vectors() {
    assert_eq!(TEapPskKey::from(vec![3; 16]).0, [3; 16]);
    assert_eq!(TEapPskRand::from(vec![4; 16]).0, [4; 16]);
    assert_eq!(TEapPskRand::from_slice(&[5; 16]).0, [5; 16]);
    assert_eq!(TEapPskRand::new().0, [0; 16]);
    let a = TEapPskRand::new_random();
    let b = TEapPskRand::new_random();
    assert_ne!(a.0, b.0);
}

//! EAP-PSK (RFC 4764) as G3-PLC uses it to bootstrap devices: key
//! derivation with AES-128, message authentication with CMAC-AES-128 and the
//! protected channel with EAX over AES-128.
use vstd::prelude::*;

use aes::cipher::generic_array::GenericArray;
use aes::{Aes128, BlockEncrypt, NewBlockCipher};
use cmac::{Cmac, Mac, NewMac};
use eax::aead::{Aead, Payload};
use eax::{Eax, NewAead};
use rand::Rng;

verus! {

pub const EAP_PSK_IANA_TYPE: u8 = 0x2F;

pub const KEY_LEN: usize = 16;

/// EAP codes, shifted left by two bits (G3 keeps two reserved bits).
pub const EAP_REQUEST: u8 = 0x04;

pub const EAP_RESPONSE: u8 = 0x08;

pub const EAP_SUCCESS: u8 = 0x0C;

pub const EAP_FAILURE: u8 = 0x10;

/// The T subfield of the four EAP-PSK messages.
pub const EAP_PSK_T0: u8 = 0x00;

pub const EAP_PSK_T1: u8 = 0x40;

pub const EAP_PSK_T2: u8 = 0x80;

pub const EAP_PSK_T3: u8 = 0xC0;

/// Results carried by the protected channel.
pub const PCHANNEL_RESULT_CONTINUE: u8 = 0x01;

pub const PCHANNEL_RESULT_DONE_SUCCESS: u8 = 0x02;

pub const PCHANNEL_RESULT_DONE_FAILURE: u8 = 0x03;

pub const NETWORK_ACCESS_IDENTIFIER_MAX_SIZE_S: usize = 34;

pub const NETWORK_ACCESS_IDENTIFIER_MAX_SIZE_P: usize = 36;

pub const NETWORK_ACCESS_IDENTIFIER_SIZE_S_ARIB: usize = NETWORK_ACCESS_IDENTIFIER_MAX_SIZE_S;

pub const NETWORK_ACCESS_IDENTIFIER_SIZE_P_ARIB: usize = NETWORK_ACCESS_IDENTIFIER_MAX_SIZE_P;

pub const NETWORK_ACCESS_IDENTIFIER_SIZE_S_CENELEC_FCC: usize = 8;

pub const NETWORK_ACCESS_IDENTIFIER_SIZE_P_CENELEC_FCC: usize = 8;

/// The block that AES-128 under `key` makes of `block` (both sixteen bytes).
pub uninterp spec fn aes128_encrypt(key: Seq<u8>, block: Seq<u8>) -> Seq<u8>;

/// The CMAC-AES-128 tag of `msg` under `key`.
pub uninterp spec fn cmac_aes128(key: Seq<u8>, msg: Seq<u8>) -> Seq<u8>;

/// The EAX-AES-128 ciphertext of `msg` (the encrypted message, then the
/// sixteen byte tag), under `key`, with `nonce` and associated data `aad`.
pub uninterp spec fn eax_aes128_encrypt(key: Seq<u8>, nonce: Seq<u8>, aad: Seq<u8>, msg: Seq<u8>) -> Seq<u8>;

/// The EAX-AES-128 decryption of `ct` (message then tag): `None` when the tag
/// does not check.
pub uninterp spec fn eax_aes128_decrypt(key: Seq<u8>, nonce: Seq<u8>, aad: Seq<u8>, ct: Seq<u8>) -> Option<Seq<u8>>;

/// `aes::Aes128` (aes 0.7): `NewBlockCipher::new` with the key, then
/// `BlockEncrypt::encrypt_block` on a copy of the block. The result is named
/// `aes128_encrypt` of the key and the block; nothing more is stated of it.
#[verifier::external_body]
fn aes128_encrypt_block(key: &[u8; 16], block: &[u8; 16]) -> (r: [u8; 16])
    ensures
        r@ == aes128_encrypt(key@, block@),
{
    let cipher = Aes128::new(GenericArray::from_slice(key));
    let mut b = GenericArray::clone_from_slice(block);
    cipher.encrypt_block(&mut b);
    b.into()
}

/// `cmac::Cmac<Aes128>` (cmac 0.6): `NewMac::new` with the key, `update` with
/// the message, `finalize().into_bytes()`. The tag is named `cmac_aes128` of
/// the key and the message.
#[verifier::external_body]
fn cmac_aes128_tag(key: &[u8; 16], msg: &[u8]) -> (r: [u8; 16])
    ensures
        r@ == cmac_aes128(key@, msg@),
{
    let mut mac = Cmac::<Aes128>::new(GenericArray::from_slice(key));
    mac.update(msg);
    mac.finalize().into_bytes().into()
}

/// `eax::Eax<Aes128>` (eax 0.4, through `aead::Aead::encrypt`): encrypts `msg`
/// with associated data `aad`. As the source shows, it fails exactly when the
/// message or the associated data is longer than 2^36 bytes, and else gives
/// the encrypted message followed by a sixteen byte tag; that result is named
/// `eax_aes128_encrypt`.
#[verifier::external_body]
fn eax_encrypt(key: &[u8; 16], nonce: &[u8; 16], aad: &[u8], msg: &[u8]) -> (r: Option<Vec<u8>>)
    ensures
        r is Some <==> (msg@.len() <= 0x10_0000_0000 && aad@.len() <= 0x10_0000_0000),
        r matches Some(c) ==> c@ == eax_aes128_encrypt(key@, nonce@, aad@, msg@) && c@.len()
            == msg@.len() + 16,
{
    let cipher = Eax::<Aes128>::new(GenericArray::from_slice(key));
    cipher.encrypt(GenericArray::from_slice(nonce), Payload { msg, aad }).ok()
}

/// `eax::Eax<Aes128>` (eax 0.4, through `aead::Aead::decrypt`): checks the tag
/// (the last sixteen bytes of `ct`) and decrypts the rest. The result is named
/// `eax_aes128_decrypt`; as the source shows, input shorter than the tag fails
/// and a success gives sixteen bytes less than the input.
#[verifier::external_body]
fn eax_decrypt(key: &[u8; 16], nonce: &[u8; 16], aad: &[u8], ct: &[u8]) -> (r: Option<Vec<u8>>)
    ensures
        r matches Some(p) ==> eax_aes128_decrypt(key@, nonce@, aad@, ct@) == Some(p@) && p@.len()
            + 16 == ct@.len(),
        r is None ==> eax_aes128_decrypt(key@, nonce@, aad@, ct@) is None,
        ct@.len() < 16 ==> r is None,
{
    let cipher = Eax::<Aes128>::new(GenericArray::from_slice(key));
    cipher.decrypt(GenericArray::from_slice(nonce), Payload { msg: ct, aad }).ok()
}

/// `rand::thread_rng().fill` (rand 0.8) on sixteen bytes: random, so nothing is
/// stated of the result.
#[verifier::external_body]
fn random_bytes16() -> [u8; 16] {
    let mut arr = [0u8; 16];
    rand::thread_rng().fill(&mut arr);
    arr
}

/// `Vec::capacity`: what the allocator gave, so only what the documentation
/// implies is stated: the vector holds its elements without reallocating, so
/// the capacity is at least the length.
#[verifier::external_body]
fn vec_capacity(v: &Vec<u8>) -> (r: usize)
    ensures
        r >= v@.len(),
{
    v.capacity()
}

/// The server identity (IdS) of the network access identifiers.
pub struct TEapPskNetworkAccessIdentifierP(pub Vec<u8>);

pub struct TEapPskNetworkAccessIdentifierS(pub Vec<u8>);

/// An EAP-PSK key.
#[derive(Clone, Debug)]
pub struct TEapPskKey(pub [u8; 16]);

impl TEapPskKey {
    /// The key of sixteen bytes (no other length is a key).
    pub fn from(v: Vec<u8>) -> (r: Self)
        requires
            v@.len() == 16,
        ensures
            r.0@ == v@,
    {
        TEapPskKey(array16(&v, 0))
    }
}

/// An EAP-PSK random value (RandS or RandP).
#[derive(Clone, Debug)]
pub struct TEapPskRand(pub [u8; 16]);

impl TEapPskRand {
    pub fn new() -> (r: Self)
        ensures
            r.0@ == Seq::new(16, |i: int| 0u8),
    {
        let r = TEapPskRand([0u8; 16]);
        assert(r.0@ =~= Seq::new(16, |i: int| 0u8));
        r
    }

    /// Sixteen random bytes.
    pub fn new_random() -> (r: Self) {
        TEapPskRand(random_bytes16())
    }

    /// The value of sixteen bytes (no other length is one).
    pub fn from(v: Vec<u8>) -> (r: Self)
        requires
            v@.len() == 16,
        ensures
            r.0@ == v@,
    {
        TEapPskRand(array16(&v, 0))
    }

    /// The value of sixteen bytes (no other length is one).
    pub fn from_slice(v: &[u8]) -> (r: Self)
        requires
            v@.len() == 16,
        ensures
            r.0@ == v@,
    {
        TEapPskRand(array16(v, 0))
    }
}

/// A network access identifier.
#[derive(Debug)]
pub struct TEapPskNetworkAccessIdentifier(pub Vec<u8>);

impl TEapPskNetworkAccessIdentifier {
    pub fn new() -> (r: Self)
        ensures
            r.0@ == Seq::<u8>::empty(),
    {
        TEapPskNetworkAccessIdentifier(Vec::new())
    }
}

/// The keys and values that an EAP-PSK exchange keeps.
#[derive(Debug)]
pub struct TEapPskContext {
    /// Derivation key.
    pub m_Kdk: TEapPskKey,
    /// Authentication key.
    pub m_Ak: TEapPskKey,
    /// Transient key.
    pub m_Tek: TEapPskKey,
    pub m_IdS: TEapPskNetworkAccessIdentifier,
    pub m_RandP: TEapPskRand,
    pub m_RandS: TEapPskRand,
}

pub open spec fn zeros16() -> Seq<u8> {
    Seq::new(16, |i: int| 0u8)
}

impl TEapPskContext {
    pub fn new() -> (r: Self)
        ensures
            r.m_Kdk.0@ == zeros16(),
            r.m_Ak.0@ == zeros16(),
            r.m_Tek.0@ == zeros16(),
            r.m_IdS.0@ == Seq::<u8>::empty(),
            r.m_RandP.0@ == zeros16(),
            r.m_RandS.0@ == zeros16(),
    {
        let r = TEapPskContext {
            m_Kdk: TEapPskKey([0;16]),
            m_Ak: TEapPskKey([0;16]),
            m_Tek: TEapPskKey([0;16]),
            m_IdS: TEapPskNetworkAccessIdentifier::new(),
            m_RandP: TEapPskRand([0;16]),
            m_RandS: TEapPskRand([0;16]),
        };
        assert(r.m_Kdk.0@ =~= zeros16());
        assert(r.m_Ak.0@ =~= zeros16());
        assert(r.m_Tek.0@ =~= zeros16());
        assert(r.m_RandP.0@ =~= zeros16());
        assert(r.m_RandS.0@ =~= zeros16());
        r
    }
}

/// Sixteen bytes of `v` from `start` on.
fn array16(v: &[u8], start: usize) -> (r: [u8; 16])
    requires
        start + 16 <= v@.len(),
    ensures
        r@ == v@.subrange(start as int, start + 16),
{
    let s = start;
    let r = [
        v[s], v[s + 1], v[s + 2], v[s + 3], v[s + 4], v[s + 5], v[s + 6], v[s + 7],
        v[s + 8], v[s + 9], v[s + 10], v[s + 11], v[s + 12], v[s + 13], v[s + 14], v[s + 15],
    ];
    assert(r@ =~= v@.subrange(start as int, start + 16));
    r
}

/// `b` with its last (sixteenth) byte xored with `x`.
pub open spec fn xor_last(b: Seq<u8>, x: u8) -> Seq<u8> {
    b.update(15, b[15] ^ x)
}

fn xor_last16(b: [u8; 16], x: u8) -> (r: [u8; 16])
    ensures
        r@ == xor_last(b@, x),
{
    let r = [
        b[0], b[1], b[2], b[3], b[4], b[5], b[6], b[7],
        b[8], b[9], b[10], b[11], b[12], b[13], b[14], b[15] ^ x,
    ];
    assert(r@ =~= xor_last(b@, x));
    r
}

/// The authentication key that EAP-PSK derives from the pre-shared key.
pub open spec fn spec_psk_ak(k: Seq<u8>) -> Seq<u8> {
    aes128_encrypt(k, xor_last(aes128_encrypt(k, zeros16()), 1))
}

/// The derivation key that EAP-PSK derives from the pre-shared key.
pub open spec fn spec_psk_kdk(k: Seq<u8>) -> Seq<u8> {
    aes128_encrypt(k, xor_last(aes128_encrypt(k, zeros16()), 2))
}

/// The transient key that EAP-PSK derives from the derivation key and RandP.
pub open spec fn spec_psk_tek(kdk: Seq<u8>, rand_p: Seq<u8>) -> Seq<u8> {
    aes128_encrypt(kdk, xor_last(aes128_encrypt(kdk, rand_p), 1))
}

/// Derives the authentication and derivation keys from the pre-shared key.
pub fn eap_psk_initialize(pKey: &TEapPskKey, pPskContext: &mut TEapPskContext) -> (r: bool)
    ensures
        r,
        final(pPskContext).m_Ak.0@ == spec_psk_ak(pKey.0@),
        final(pPskContext).m_Kdk.0@ == spec_psk_kdk(pKey.0@),
        final(pPskContext).m_Tek == old(pPskContext).m_Tek,
        final(pPskContext).m_IdS == old(pPskContext).m_IdS,
        final(pPskContext).m_RandP == old(pPskContext).m_RandP,
        final(pPskContext).m_RandS == old(pPskContext).m_RandS,
{
    let zero = [0u8; 16];
    assert(zero@ =~= zeros16());
    let block = aes128_encrypt_block(&pKey.0, &zero);
    let block1 = xor_last16(block, 0x01);
    let ak = aes128_encrypt_block(&pKey.0, &block1);
    pPskContext.m_Ak.0 = ak;
    // xoring the first value with 3 gives the block xored with 2
    let block2 = xor_last16(block1, 0x03);
    assert(block2@ =~= xor_last(block@, 2)) by {
        let x = block@[15];
        assert((x ^ 1u8) ^ 3u8 == x ^ 2u8) by (bit_vector);
    }
    let kdk = aes128_encrypt_block(&pKey.0, &block2);
    pPskContext.m_Kdk.0 = kdk;
    true
}

/// Derives the transient key from RandP and the derivation key.
pub fn eap_psk_initialize_tek(p_rand_p: &TEapPskRand, p_psk_context: &mut TEapPskContext) -> (r:
    bool)
    ensures
        r,
        final(p_psk_context).m_Tek.0@ == spec_psk_tek(old(p_psk_context).m_Kdk.0@, p_rand_p.0@),
        final(p_psk_context).m_Ak == old(p_psk_context).m_Ak,
        final(p_psk_context).m_Kdk == old(p_psk_context).m_Kdk,
        final(p_psk_context).m_IdS == old(p_psk_context).m_IdS,
        final(p_psk_context).m_RandP == old(p_psk_context).m_RandP,
        final(p_psk_context).m_RandS == old(p_psk_context).m_RandS,
{
    let v = aes128_encrypt_block(&p_psk_context.m_Kdk.0, &p_rand_p.0);
    let v1 = xor_last16(v, 0x01);
    let tek = aes128_encrypt_block(&p_psk_context.m_Kdk.0, &v1);
    p_psk_context.m_Tek.0 = tek;
    true
}

/// The EAP length field of a message (bytes 2 and 3, big endian).
pub open spec fn eap_len_field(m: Seq<u8>) -> int {
    m[2] as int * 256 + m[3] as int
}

/// Whether `eap_psk_decode_message` accepts `m`: at least four bytes, a length
/// field no larger than the message, at least six, and the EAP-PSK type.
pub open spec fn spec_eap_decodes(m: Seq<u8>) -> bool {
    &&& m.len() >= 4
    &&& eap_len_field(m) <= m.len()
    &&& (eap_len_field(m) >= 6 ==> m[4] == EAP_PSK_IANA_TYPE)
}

/// Decodes the EAP header: code, identifier and, when the length field is at
/// least six, the T subfield and the EAP data that follows.
pub fn eap_psk_decode_message(
    p_message: &Vec<u8>,
    pu8_code: &mut u8,
    pu8_identifier: &mut u8,
    pu8_tsubfield: &mut u8,
    p_eap_data: &mut Vec<u8>,
) -> (r: bool)
    ensures
        r == spec_eap_decodes(p_message@),
        p_message@.len() >= 4 ==> *final(pu8_code) == p_message@[0] && *final(pu8_identifier)
            == p_message@[1],
        p_message@.len() < 4 ==> *final(pu8_code) == *old(pu8_code) && *final(pu8_identifier)
            == *old(pu8_identifier),
        (p_message@.len() >= 4 && eap_len_field(p_message@) <= p_message@.len() && eap_len_field(
            p_message@,
        ) >= 6) ==> *final(pu8_tsubfield) == p_message@[5] && final(p_eap_data)@
            == p_message@.skip(6),
        !(p_message@.len() >= 4 && eap_len_field(p_message@) <= p_message@.len() && eap_len_field(
            p_message@,
        ) >= 6) ==> *final(pu8_tsubfield) == *old(pu8_tsubfield) && final(p_eap_data)@ == old(
            p_eap_data,
        )@,
{
    let mut b_ret = false;
    if p_message.len() >= 4 {
        *pu8_code = p_message[0];
        *pu8_identifier = p_message[1];
        let u16_eap_message_length: usize = (p_message[2] as usize) * 256 + p_message[3] as usize;
        // a message whose length field is larger than the octets received is discarded
        b_ret = u16_eap_message_length <= p_message.len();
        if b_ret && (u16_eap_message_length >= 6) {
            *pu8_tsubfield = p_message[5];
            let n = p_message.len();
            *p_eap_data = vstd::slice::slice_to_vec(
                vstd::slice::slice_subrange(p_message.as_slice(), 6, n),
            );
            assert(p_eap_data@ =~= p_message@.skip(6));
            b_ret = (p_message[4] == EAP_PSK_IANA_TYPE);
        }
    }
    return b_ret;
}

/// Decodes the first EAP-PSK message: RandS then IdS.
pub fn eap_psk_decode_message1(
    p_message: &Vec<u8>,
    p_rand_s: &mut TEapPskRand,
    p_id_s: &mut TEapPskNetworkAccessIdentifier,
) -> (r: bool)
    ensures
        r == (p_message@.len() >= 16),
        r ==> final(p_rand_s).0@ == p_message@.subrange(0, 16) && final(p_id_s).0@
            == p_message@.skip(16),
        !r ==> *final(p_rand_s) == *old(p_rand_s) && *final(p_id_s) == *old(p_id_s),
{
    let mut bRet = false;
    if p_message.len() >= 16 {
        *p_rand_s = TEapPskRand(array16(p_message, 0));
        let n = p_message.len();
        p_id_s.0 = vstd::slice::slice_to_vec(vstd::slice::slice_subrange(p_message.as_slice(), 16, n));
        assert(p_id_s.0@ =~= p_message@.skip(16));
        bRet = true;
    }
    return bRet;
}

/// `v` with its EAP length field (bytes 2 and 3) set to `n`, big endian,
/// modulo 2^16.
pub open spec fn with_len(v: Seq<u8>, n: int) -> Seq<u8> {
    v.update(2, ((n / 256) % 256) as u8).update(3, (n % 256) as u8)
}

/// `v` with its EAP length field set to its own length.
pub open spec fn with_len_field(v: Seq<u8>) -> Seq<u8> {
    with_len(v, v.len() as int)
}

fn set_len_field(v: &mut Vec<u8>)
    requires
        old(v)@.len() >= 4,
    ensures
        final(v)@ == with_len_field(old(v)@),
{
    let n = v.len();
    set_len_to(v, n);
}

fn set_len_to(v: &mut Vec<u8>, n: usize)
    requires
        old(v)@.len() >= 4,
    ensures
        final(v)@ == with_len(old(v)@, n as int),
{
    let hi = ((n >> 8usize) & 0x00FF) as u8;
    let lo = (n & 0x00FF) as u8;
    assert(hi == (n / 256) % 256 && lo == n % 256) by (bit_vector)
        requires
            hi == ((n >> 8usize) & 0xFFusize) as u8,
            lo == (n & 0xFFusize) as u8,
    ;
    v.set(2, hi);
    v.set(3, lo);
}

pub(crate) fn append_bytes(v: &mut Vec<u8>, d: &[u8])
    ensures
        final(v)@ == old(v)@ + d@,
{
    let mut i: usize = 0;
    while i < d.len()
        invariant
            i <= d.len(),
            v@ == old(v)@ + d@.take(i as int),
        decreases d.len() - i,
    {
        v.push(d[i]);
        assert(d@.take(i + 1) =~= d@.take(i as int).push(d@[i as int]));
        i = i + 1;
    }
    assert(d@.take(d.len() as int) =~= d@);
}

/// The second EAP-PSK message appended to `old`: the EAP response header with
/// T1, RandS, RandP, MacP = CMAC(AK, IdP || IdS || RandS || RandP) and IdP;
/// then the length field (bytes 2 and 3 of the whole buffer) set to the
/// buffer's length.
pub open spec fn spec_eap_msg2(
    old: Seq<u8>,
    ak: Seq<u8>,
    id: u8,
    rand_s: Seq<u8>,
    rand_p: Seq<u8>,
    id_s: Seq<u8>,
    id_p: Seq<u8>,
) -> Seq<u8> {
    let mac_p = cmac_aes128(ak, id_p + id_s + rand_s + rand_p);
    with_len_field(
        old + seq![EAP_RESPONSE, id, 0u8, 0u8, EAP_PSK_IANA_TYPE, EAP_PSK_T1] + rand_s + rand_p
            + mac_p + id_p,
    )
}

/// Encodes the second EAP-PSK message into `p_memory_buffer`, when its
/// capacity is at least 62 bytes; else leaves it as it is. The capacity is
/// the allocator's: the contract states what holds either way, and that a
/// buffer that already holds 62 bytes gets the message.
pub fn eap_psk_encode_message2(
    p_psk_context: &TEapPskContext,
    p_u8_identifier: u8,
    p_rand_s: &TEapPskRand,
    p_rand_p: &TEapPskRand,
    p_id_s: &TEapPskNetworkAccessIdentifier,
    p_id_p: &TEapPskNetworkAccessIdentifier,
    p_memory_buffer: &mut Vec<u8>,
)
    ensures
        old(p_memory_buffer)@.len() >= 62 ==> final(p_memory_buffer)@ == spec_eap_msg2(
            old(p_memory_buffer)@,
            p_psk_context.m_Ak.0@,
            p_u8_identifier,
            p_rand_s.0@,
            p_rand_p.0@,
            p_id_s.0@,
            p_id_p.0@,
        ),
        final(p_memory_buffer)@ == old(p_memory_buffer)@ || final(p_memory_buffer)@
            == spec_eap_msg2(
            old(p_memory_buffer)@,
            p_psk_context.m_Ak.0@,
            p_u8_identifier,
            p_rand_s.0@,
            p_rand_p.0@,
            p_id_s.0@,
            p_id_p.0@,
        ),
{
    if vec_capacity(p_memory_buffer) >= 62 {
        let mut au8Seed: Vec<u8> = Vec::new();
        append_bytes(&mut au8Seed, p_id_p.0.as_slice());
        append_bytes(&mut au8Seed, p_id_s.0.as_slice());
        append_bytes(&mut au8Seed, &p_rand_s.0);
        append_bytes(&mut au8Seed, &p_rand_p.0);
        let au8_mac_p = cmac_aes128_tag(&p_psk_context.m_Ak.0, au8Seed.as_slice());
        let ghost o = p_memory_buffer@;
        p_memory_buffer.push(EAP_RESPONSE);
        p_memory_buffer.push(p_u8_identifier);
        p_memory_buffer.push(0);
        p_memory_buffer.push(0);
        p_memory_buffer.push(EAP_PSK_IANA_TYPE);
        p_memory_buffer.push(EAP_PSK_T1);
        append_bytes(p_memory_buffer, &p_rand_s.0);
        append_bytes(p_memory_buffer, &p_rand_p.0);
        append_bytes(p_memory_buffer, &au8_mac_p);
        append_bytes(p_memory_buffer, p_id_p.0.as_slice());
        assert(p_memory_buffer@ =~= o + seq![
            EAP_RESPONSE,
            p_u8_identifier,
            0u8,
            0u8,
            EAP_PSK_IANA_TYPE,
            EAP_PSK_T1,
        ] + p_rand_s.0@ + p_rand_p.0@ + au8_mac_p@ + p_id_p.0@);
        set_len_field(p_memory_buffer);
    }
}

/// The nonce of the protected channel: twelve zero bytes, then the 32 bit
/// nonce big endian.
pub open spec fn spec_pchannel_nonce(n: u32) -> Seq<u8> {
    Seq::new(12, |i: int| 0u8) + be4(n)
}

fn pchannel_nonce(n: u32) -> (r: [u8; 16])
    ensures
        r@ == spec_pchannel_nonce(n),
{
    let b0 = ((n >> 24u32) & 0xFF) as u8;
    let b1 = ((n >> 16u32) & 0xFF) as u8;
    let b2 = ((n >> 8u32) & 0xFF) as u8;
    let b3 = (n & 0xFF) as u8;
    assert(b0 == n / 0x1000000 && b1 == (n / 0x10000) % 256 && b2 == (n / 0x100) % 256 && b3 == n
        % 256) by (bit_vector)
        requires
            b0 == ((n >> 24u32) & 0xFFu32) as u8,
            b1 == ((n >> 16u32) & 0xFFu32) as u8,
            b2 == ((n >> 8u32) & 0xFFu32) as u8,
            b3 == (n & 0xFFu32) as u8,
    ;
    let r = [0u8, 0, 0, 0, 0, 0, 0, 0, 0, 0, 0, 0, b0, b1, b2, b3];
    assert(r@ =~= spec_pchannel_nonce(n));
    r
}

/// The nonce block that the decoders use: twelve zero bytes, then the four
/// nonce bytes of the message as they stand.
pub open spec fn spec_nonce_block(t: Seq<u8>) -> Seq<u8> {
    Seq::new(12, |i: int| 0u8) + t
}

/// The nonce as the decoders read it: the four nonce bytes as a big endian
/// value, as the encoders write it.
pub open spec fn spec_read_nonce(t: Seq<u8>) -> u32 {
    (t[0] as int * 0x1000000 + t[1] as int * 0x10000 + t[2] as int * 0x100 + t[3] as int) as u32
}

fn read_nonce(a: u8, b: u8, c: u8, d: u8) -> (r: u32)
    ensures
        r == spec_read_nonce(seq![a, b, c, d]),
{
    let r = (a as u32) << 24u32 | (b as u32) << 16u32 | (c as u32) << 8u32 | (d as u32);
    assert(((a as u32) << 24u32 | (b as u32) << 16u32 | (c as u32) << 8u32 | (d as u32)) == a
        as u32 * 0x1000000 + b as u32 * 0x10000 + c as u32 * 0x100 + d as u32) by (bit_vector);
    r
}

/// The first byte of the protected channel data: the result in the two top
/// bits, and the extension bit when data follows.
pub open spec fn spec_pchannel_head(result: u8, has_data: bool) -> u8 {
    if has_data {
        (((result as int * 64) % 256) + 32) as u8
    } else {
        ((result as int * 64) % 256) as u8
    }
}

fn pchannel_plain(result: u8, data: &[u8]) -> (r: Vec<u8>)
    ensures
        r@ == seq![spec_pchannel_head(result, data@.len() > 0)] + data@,
{
    let mut v: Vec<u8> = Vec::new();
    let s = result << 6u8;
    assert(s as int == (result as int * 64) % 256) by (bit_vector)
        requires
            s == result << 6u8,
    ;
    if data.len() > 0 {
        assert((s | 0x20u8) as int == s as int + 32) by (bit_vector)
            requires
                s == result << 6u8,
        ;
        v.push(s | 0x20);
        append_bytes(&mut v, data);
    } else {
        v.push(s);
    }
    assert(v@ =~= seq![spec_pchannel_head(result, data@.len() > 0)] + data@);
    v
}

/// Whether the third EAP-PSK message starts with a MacS that checks:
/// CMAC(AK, IdS || RandP) in bytes 16 to 31.
pub open spec fn spec_mac_s_checks(m: Seq<u8>, ctx: TEapPskContext) -> bool {
    cmac_aes128(ctx.m_Ak.0@, ctx.m_IdS.0@ + ctx.m_RandP.0@) == m.subrange(16, 32)
}

/// The header as authenticated: the code shifted back to its EAP position.
pub open spec fn spec_eap_aad(h: Seq<u8>) -> Seq<u8> {
    h.update(0, h[0] / 4)
}

fn shift_code_right(h: &mut Vec<u8>)
    requires
        old(h)@.len() >= 1,
    ensures
        final(h)@ == spec_eap_aad(old(h)@),
{
    let c = h[0];
    assert(c >> 2u8 == c / 4) by (bit_vector);
    h.set(0, c >> 2u8);
}

/// Decodes the third EAP-PSK message (RandS, MacS, nonce, protected channel).
/// It succeeds when the message is long enough, its MacS checks and the
/// protected channel decrypts; what it writes is stated below.
pub fn eap_psk_decode_message3(
    p_message: &Vec<u8>,
    p_psk_context: &TEapPskContext,
    p_header: Vec<u8>,
    p_rand_s: &mut TEapPskRand,
    p_u32_nonce: &mut u32,
    p_u8_pchannel_result: &mut u8,
    p_pchannel_data: &mut Vec<u8>,
) -> (r: bool)
    requires
        p_message@.len() >= 59 ==> p_header@.len() >= 1,
    ensures
        r == ({
            let m = p_message@;
            m.len() >= 59 && spec_mac_s_checks(m, *p_psk_context) && eax_aes128_decrypt(
                p_psk_context.m_Tek.0@,
                spec_nonce_block(m.subrange(32, 36)),
                spec_eap_aad(p_header@),
                m.skip(36),
            ) is Some
        }),
        p_message@.len() >= 59 ==> final(p_rand_s).0@ == p_message@.subrange(0, 16),
        p_message@.len() < 59 ==> *final(p_rand_s) == *old(p_rand_s),
        ({
            let m = p_message@;
            let d = eax_aes128_decrypt(
                p_psk_context.m_Tek.0@,
                spec_nonce_block(m.subrange(32, 36)),
                spec_eap_aad(p_header@),
                m.skip(36),
            );
            if m.len() >= 59 && spec_mac_s_checks(m, *p_psk_context) && d is Some {
                &&& *final(p_u8_pchannel_result) == d.unwrap()[0] / 64
                &&& final(p_pchannel_data)@ == d.unwrap().skip(1)
                &&& *final(p_u32_nonce) == spec_read_nonce(m.subrange(32, 36))
            } else {
                &&& *final(p_u8_pchannel_result) == *old(p_u8_pchannel_result)
                &&& final(p_pchannel_data)@ == old(p_pchannel_data)@
                &&& *final(p_u32_nonce) == *old(p_u32_nonce)
            }
        }),
{
    let mut b_ret = false;
    if p_message.len() >= 59 {
        *p_rand_s = TEapPskRand(array16(p_message, 0));
        let mut au8_seed: Vec<u8> = Vec::new();
        append_bytes(&mut au8_seed, p_psk_context.m_IdS.0.as_slice());
        append_bytes(&mut au8_seed, &p_psk_context.m_RandP.0);
        let au8_mac_s = cmac_aes128_tag(&p_psk_context.m_Ak.0, au8_seed.as_slice());
        let mac_s = array16(p_message, 16);
        if bytes16_eq(&au8_mac_s, &mac_s) {
            let n = p_message.len();
            let nonce = read_nonce(p_message[32], p_message[33], p_message[34], p_message[35]);
            let au8_nonce: [u8; 16] = [
                0, 0, 0, 0, 0, 0, 0, 0, 0, 0, 0, 0,
                p_message[32], p_message[33], p_message[34], p_message[35],
            ];
            assert(au8_nonce@ =~= spec_nonce_block(p_message@.subrange(32, 36)));
            let p_protected_data = vstd::slice::slice_subrange(p_message.as_slice(), 36, n);
            assert(p_protected_data@ =~= p_message@.skip(36));
            let mut header = p_header.clone();
            shift_code_right(&mut header);
            if let Some(data) = eax_decrypt(
                &p_psk_context.m_Tek.0,
                &au8_nonce,
                header.as_slice(),
                p_protected_data,
            ) {
                let d0 = data[0];
                let res = (d0 & 0xC0) >> 6u8;
                assert((d0 & 0xC0u8) >> 6u8 == d0 / 64) by (bit_vector);
                *p_u8_pchannel_result = res;
                let dn = data.len();
                *p_pchannel_data = vstd::slice::slice_to_vec(
                    vstd::slice::slice_subrange(data.as_slice(), 1, dn),
                );
                assert(p_pchannel_data@ =~= data@.skip(1));
                *p_u32_nonce = nonce;
                b_ret = true;
            }
        }
    }
    return b_ret;
}

pub(crate) fn bytes16_eq(a: &[u8; 16], b: &[u8; 16]) -> (r: bool)
    ensures
        r == (a@ == b@),
{
    let mut i: usize = 0;
    while i < 16
        invariant
            i <= 16,
            forall|j: int| 0 <= j < i ==> a@[j] == b@[j],
        decreases 16 - i,
    {
        if a[i] != b[i] {
            return false;
        }
        i = i + 1;
    }
    assert(a@ =~= b@);
    true
}

/// The big endian bytes of a 32 bit value.
pub open spec fn be4(n: u32) -> Seq<u8> {
    seq![
        (n / 0x1000000) as u8,
        ((n / 0x10000) % 256) as u8,
        ((n / 0x100) % 256) as u8,
        (n % 256) as u8,
    ]
}

/// The fourth EAP-PSK message: the EAP response header with T3 and RandS,
/// the nonce big endian, then the protected channel (result and data)
/// encrypted with EAX under TEK, the header (length field still zero, code
/// shifted back) as associated data; the length field set last.
pub open spec fn spec_eap_msg4(
    tek: Seq<u8>,
    id: u8,
    rand_s: Seq<u8>,
    nonce: u32,
    result: u8,
    data: Seq<u8>,
) -> Seq<u8> {
    let hdr = seq![EAP_RESPONSE, id, 0u8, 0u8, EAP_PSK_IANA_TYPE, EAP_PSK_T3] + rand_s;
    let plain = seq![spec_pchannel_head(result, data.len() > 0)] + data;
    let c = eax_aes128_encrypt(tek, spec_pchannel_nonce(nonce), spec_eap_aad(hdr), plain);
    with_len_field(hdr + be4(nonce) + c)
}

/// Encodes the fourth EAP-PSK message into `p_protected_data`, replacing what
/// it held. It fails, leaving the buffer as it was, exactly when the
/// encryption refuses the data (longer than 2^36 bytes).
pub fn eap_psk_encode_message4(
    p_psk_context: &TEapPskContext,
    u8_identifier: u8,
    p_rand_s: &TEapPskRand,
    u32_nonce: u32,
    u8_pchannel_result: u8,
    p_pchannel_data: Vec<u8>,
    p_protected_data: &mut Vec<u8>,
) -> (r: bool)
    ensures
        r == (p_pchannel_data@.len() + 1 <= 0x10_0000_0000),
        r ==> final(p_protected_data)@ == spec_eap_msg4(
            p_psk_context.m_Tek.0@,
            u8_identifier,
            p_rand_s.0@,
            u32_nonce,
            u8_pchannel_result,
            p_pchannel_data@,
        ),
        !r ==> final(p_protected_data)@ == old(p_protected_data)@,
{
    let mut header: Vec<u8> = Vec::new();
    header.push(EAP_RESPONSE);
    header.push(u8_identifier);
    header.push(0);
    header.push(0);
    header.push(EAP_PSK_IANA_TYPE);
    header.push(EAP_PSK_T3);
    append_bytes(&mut header, &p_rand_s.0);
    let ghost hdr = header@;
    assert(hdr =~= seq![EAP_RESPONSE, u8_identifier, 0u8, 0u8, EAP_PSK_IANA_TYPE, EAP_PSK_T3]
        + p_rand_s.0@);
    let au8_nonce = pchannel_nonce(u32_nonce);
    let protected_data = pchannel_plain(u8_pchannel_result, p_pchannel_data.as_slice());
    shift_code_right(&mut header);
    match eax_encrypt(&p_psk_context.m_Tek.0, &au8_nonce, header.as_slice(), protected_data.as_slice()) {
        Some(data) => {
            header.set(0, EAP_RESPONSE);
            assert(header@ =~= hdr);
            let mut out: Vec<u8> = Vec::new();
            append_bytes(&mut out, header.as_slice());
            let tail = vstd::slice::slice_subrange(&au8_nonce, 12, 16);
            assert(tail@ =~= be4(u32_nonce));
            append_bytes(&mut out, tail);
            append_bytes(&mut out, data.as_slice());
            set_len_field(&mut out);
            *p_protected_data = out;
            true
        },
        None => false,
    }
}

/// The first EAP-PSK message: the EAP request header with T0, RandS and IdS,
/// the length field set to the message's length.
pub open spec fn spec_eap_msg1(id: u8, rand_s: Seq<u8>, id_s: Seq<u8>) -> Seq<u8> {
    with_len_field(
        seq![EAP_REQUEST, id, 0u8, 0u8, EAP_PSK_IANA_TYPE, EAP_PSK_T0] + rand_s + id_s,
    )
}

/// Encodes the first EAP-PSK message.
pub fn eap_psk_encode_message1(
    u8_identifier: u8,
    p_rand_s: &TEapPskRand,
    p_id_s: &TEapPskNetworkAccessIdentifierS,
) -> (r: Vec<u8>)
    ensures
        r@ == spec_eap_msg1(u8_identifier, p_rand_s.0@, p_id_s.0@),
{
    let mut v = vec![EAP_REQUEST, u8_identifier, 0, 0, EAP_PSK_IANA_TYPE, EAP_PSK_T0];
    append_bytes(&mut v, &p_rand_s.0);
    append_bytes(&mut v, p_id_s.0.as_slice());
    assert(v@ =~= seq![EAP_REQUEST, u8_identifier, 0u8, 0u8, EAP_PSK_IANA_TYPE, EAP_PSK_T0]
        + p_rand_s.0@ + p_id_s.0@);
    set_len_field(&mut v);
    v
}

/// Whether the MacP of the second EAP-PSK message `m` checks:
/// CMAC(AK, IdP || IdS || RandS || RandP) equals bytes 32 to 47, with RandS in
/// bytes 0 to 15, RandP in bytes 16 to 31 and an IdP of eight bytes from 48 on.
pub open spec fn spec_mac_p_checks(m: Seq<u8>, ak: Seq<u8>, id_s: Seq<u8>) -> bool {
    cmac_aes128(ak, m.subrange(48, 56) + id_s + m.subrange(0, 16) + m.subrange(16, 32))
        == m.subrange(32, 48)
}

/// Decodes the second EAP-PSK message (RandS, RandP, MacP, IdP) and checks
/// MacP. It reads the fields at fixed places, so the message must hold at
/// least 56 bytes.
pub fn eap_psk_decode_message2(
    p_message: &[u8],
    p_psk_context: &TEapPskContext,
    p_id_s: &TEapPskNetworkAccessIdentifierS,
    p_rand_s: &mut TEapPskRand,
    p_rand_p: &mut TEapPskRand,
) -> (r: bool)
    requires
        p_message@.len() >= 56,
    ensures
        final(p_rand_s).0@ == p_message@.subrange(0, 16),
        final(p_rand_p).0@ == p_message@.subrange(16, 32),
        r == spec_mac_p_checks(p_message@, p_psk_context.m_Ak.0@, p_id_s.0@),
{
    *p_rand_s = TEapPskRand(array16(p_message, 0));
    *p_rand_p = TEapPskRand(array16(p_message, 16));
    let au8_mac_p = array16(p_message, 32);
    let id_p = vstd::slice::slice_subrange(p_message, 48, 56);
    let mut au8_seed: Vec<u8> = Vec::new();
    append_bytes(&mut au8_seed, id_p);
    append_bytes(&mut au8_seed, p_id_s.0.as_slice());
    append_bytes(&mut au8_seed, &p_rand_s.0);
    append_bytes(&mut au8_seed, &p_rand_p.0);
    assert(au8_seed@ =~= p_message@.subrange(48, 56) + p_id_s.0@ + p_message@.subrange(0, 16)
        + p_message@.subrange(16, 32));
    let au8_expected = cmac_aes128_tag(&p_psk_context.m_Ak.0, au8_seed.as_slice());
    bytes16_eq(&au8_expected, &au8_mac_p)
}

/// The header of the third EAP-PSK message: the EAP request header with T2,
/// RandS and MacS = CMAC(AK, IdS || RandP), its length field set to `len`.
pub open spec fn spec_msg3_header(
    ak: Seq<u8>,
    id: u8,
    rand_s: Seq<u8>,
    rand_p: Seq<u8>,
    id_s: Seq<u8>,
    len: int,
) -> Seq<u8> {
    with_len(
        seq![EAP_REQUEST, id, 0u8, 0u8, EAP_PSK_IANA_TYPE, EAP_PSK_T2] + rand_s + cmac_aes128(
            ak,
            id_s + rand_p,
        ),
        len,
    )
}

/// The third EAP-PSK message: its header (length field set to the whole
/// message's length), the nonce big endian, the EAX tag, then the encrypted
/// protected channel; the associated data is the header's first 22 bytes with
/// the code shifted back.
pub open spec fn spec_eap_msg3(
    ak: Seq<u8>,
    tek: Seq<u8>,
    id: u8,
    rand_s: Seq<u8>,
    rand_p: Seq<u8>,
    id_s: Seq<u8>,
    nonce: u32,
    result: u8,
    data: Seq<u8>,
) -> Seq<u8> {
    let plain = seq![spec_pchannel_head(result, data.len() > 0)] + data;
    let hdr = spec_msg3_header(ak, id, rand_s, rand_p, id_s, 38 + 4 + plain.len() as int + 16);
    let c = eax_aes128_encrypt(
        tek,
        spec_pchannel_nonce(nonce),
        spec_eap_aad(hdr).subrange(0, 22),
        plain,
    );
    hdr + be4(nonce) + c.skip(plain.len() as int) + c.take(plain.len() as int)
}

/// Encodes the third EAP-PSK message; `None` exactly when the encryption
/// refuses the data (longer than 2^36 bytes). The message has 59 bytes more
/// than the protected channel data: the EAP header with its length field,
/// RandS at 6, MacS at 22, the nonce big endian at 38, the EAX tag at 42 and
/// the encrypted protected channel from 58 on.
pub fn EAP_PSK_Encode_Message3(
    pPskContext: &TEapPskContext,
    u8Identifier: u8,
    pRandS: &TEapPskRand,
    pRandP: &TEapPskRand,
    pIds: &TEapPskNetworkAccessIdentifierS,
    u32Nonce: u32,
    u8PChannelResult: u8,
    pPChannelData: &[u8],
) -> (r: Option<Vec<u8>>)
    requires
        pPChannelData@.len() + 59 <= usize::MAX,
    ensures
        r is Some <==> pPChannelData@.len() + 1 <= 0x10_0000_0000,
        r matches Some(v) ==> v@ == spec_eap_msg3(
            pPskContext.m_Ak.0@,
            pPskContext.m_Tek.0@,
            u8Identifier,
            pRandS.0@,
            pRandP.0@,
            pIds.0@,
            u32Nonce,
            u8PChannelResult,
            pPChannelData@,
        ),
        r matches Some(v) ==> {
            let n = pPChannelData@.len() + 59;
            &&& v@.len() == n
            &&& v@.subrange(0, 6) == seq![
                EAP_REQUEST,
                u8Identifier,
                ((n / 256) % 256) as u8,
                (n % 256) as u8,
                EAP_PSK_IANA_TYPE,
                EAP_PSK_T2,
            ]
            &&& v@.subrange(6, 22) == pRandS.0@
            &&& v@.subrange(22, 38) == cmac_aes128(pPskContext.m_Ak.0@, pIds.0@ + pRandP.0@)
            &&& v@.subrange(38, 42) == be4(u32Nonce)
        },
{
    let mut au8_seed: Vec<u8> = Vec::new();
    append_bytes(&mut au8_seed, pIds.0.as_slice());
    append_bytes(&mut au8_seed, &pRandP.0);
    assert(au8_seed@ =~= pIds.0@ + pRandP.0@);
    let au8_mac_s = cmac_aes128_tag(&pPskContext.m_Ak.0, au8_seed.as_slice());
    let mut header: Vec<u8> = Vec::new();
    header.push(EAP_REQUEST);
    header.push(u8Identifier);
    header.push(0);
    header.push(0);
    header.push(EAP_PSK_IANA_TYPE);
    header.push(EAP_PSK_T2);
    append_bytes(&mut header, &pRandS.0);
    append_bytes(&mut header, &au8_mac_s);
    assert(header@ =~= seq![EAP_REQUEST, u8Identifier, 0u8, 0u8, EAP_PSK_IANA_TYPE, EAP_PSK_T2]
        + pRandS.0@ + au8_mac_s@);
    let au8_nonce = pchannel_nonce(u32Nonce);
    let protected_data = pchannel_plain(u8PChannelResult, pPChannelData);
    let plen = protected_data.len();
    let len = header.len() + 4 + plen + 16;
    set_len_to(&mut header, len);
    let ghost hdr = header@;
    shift_code_right(&mut header);
    let aad = vstd::slice::slice_subrange(header.as_slice(), 0, 22);
    match eax_encrypt(&pPskContext.m_Tek.0, &au8_nonce, aad, protected_data.as_slice()) {
        Some(data) => {
            let dn = data.len();
            let payload = vstd::slice::slice_subrange(data.as_slice(), 0, plen);
            let tag = vstd::slice::slice_subrange(data.as_slice(), plen, dn);
            header.set(0, EAP_REQUEST);
            assert(header@ =~= hdr);
            let mut result_vec: Vec<u8> = Vec::new();
            append_bytes(&mut result_vec, header.as_slice());
            let tail = vstd::slice::slice_subrange(&au8_nonce, 12, 16);
            assert(tail@ =~= be4(u32Nonce));
            append_bytes(&mut result_vec, tail);
            append_bytes(&mut result_vec, tag);
            append_bytes(&mut result_vec, payload);
            assert(tag@ =~= data@.skip(plen as int));
            assert(payload@ =~= data@.take(plen as int));
            assert(result_vec@.len() == pPChannelData@.len() + 59);
            assert(result_vec@.subrange(0, 6) =~= hdr.subrange(0, 6));
            assert(result_vec@.subrange(6, 22) =~= pRandS.0@);
            assert(result_vec@.subrange(22, 38) =~= au8_mac_s@);
            assert(result_vec@.subrange(38, 42) =~= be4(u32Nonce));
            Some(result_vec)
        },
        None => None,
    }
}

/// Decodes the fourth EAP-PSK message (RandS, nonce, tag, encrypted protected
/// channel) with TEK, the first 22 bytes of `pHeader` (code shifted back) as
/// associated data, so a message that gets that far needs a header that
/// long.
pub fn EAP_PSK_Decode_Message4(
    pMessage: &Vec<u8>,
    pPskContext: &TEapPskContext,
    pHeader: &Vec<u8>,
    p_rand_s: &mut TEapPskRand,
    pu32Nonce: &mut u32,
    pu8PChannelResult: &mut u8,
    pPChannelData: &mut Vec<u8>,
) -> (r: bool)
    requires
        pMessage@.len() >= 41 ==> pHeader@.len() >= 22,
    ensures
        pMessage@.len() >= 41 ==> final(p_rand_s).0@ == pMessage@.subrange(0, 16),
        pMessage@.len() < 41 ==> *final(p_rand_s) == *old(p_rand_s),
        ({
            let m = pMessage@;
            let d = eax_aes128_decrypt(
                pPskContext.m_Tek.0@,
                spec_nonce_block(m.subrange(16, 20)),
                spec_eap_aad(pHeader@.subrange(0, 22)),
                m.skip(36) + m.subrange(20, 36),
            );
            &&& r == (m.len() >= 41 && d is Some)
            &&& if r {
                &&& *final(pu8PChannelResult) == d.unwrap()[0] / 64
                &&& final(pPChannelData)@ == d.unwrap().skip(1)
                &&& *final(pu32Nonce) == spec_read_nonce(m.subrange(16, 20))
            } else {
                &&& *final(pu8PChannelResult) == *old(pu8PChannelResult)
                &&& final(pPChannelData)@ == old(pPChannelData)@
                &&& *final(pu32Nonce) == *old(pu32Nonce)
            }
        }),
{
    let mut b_ret = false;
    if pMessage.len() >= 41 {
        *p_rand_s = TEapPskRand(array16(pMessage, 0));
        let n = pMessage.len();
        let au8_nonce: [u8; 16] = [
            0, 0, 0, 0, 0, 0, 0, 0, 0, 0, 0, 0,
            pMessage[16], pMessage[17], pMessage[18], pMessage[19],
        ];
        assert(au8_nonce@ =~= spec_nonce_block(pMessage@.subrange(16, 20)));
        let tag = vstd::slice::slice_subrange(pMessage.as_slice(), 20, 36);
        let protected_data = vstd::slice::slice_subrange(pMessage.as_slice(), 36, n);
        let mut header = vstd::slice::slice_to_vec(
            vstd::slice::slice_subrange(pHeader.as_slice(), 0, 22),
        );
        shift_code_right(&mut header);
        let mut data_and_tag: Vec<u8> = Vec::new();
        append_bytes(&mut data_and_tag, protected_data);
        append_bytes(&mut data_and_tag, tag);
        assert(data_and_tag@ =~= pMessage@.skip(36) + pMessage@.subrange(20, 36));
        if let Some(data) = eax_decrypt(
            &pPskContext.m_Tek.0,
            &au8_nonce,
            header.as_slice(),
            data_and_tag.as_slice(),
        ) {
            let d0 = data[0];
            let res = (d0 & 0xC0) >> 6u8;
            assert((d0 & 0xC0u8) >> 6u8 == d0 / 64) by (bit_vector);
            *pu8PChannelResult = res;
            let dn = data.len();
            *pPChannelData = vstd::slice::slice_to_vec(
                vstd::slice::slice_subrange(data.as_slice(), 1, dn),
            );
            assert(pPChannelData@ =~= data@.skip(1));
            *pu32Nonce = read_nonce(pMessage[16], pMessage[17], pMessage[18], pMessage[19]);
            assert(seq![pMessage@[16], pMessage@[17], pMessage@[18], pMessage@[19]]
                =~= pMessage@.subrange(16, 20));
            b_ret = true;
        }
    }
    b_ret
}

/// Encodes the EAP success message.
pub fn EAP_PSK_Encode_EAP_Success(u8Identifier: u8) -> (r: Option<Vec<u8>>)
    ensures
        r matches Some(v) && v@ == seq![EAP_SUCCESS, u8Identifier, 0u8, 4u8],
{
    let v = vec![EAP_SUCCESS, u8Identifier, 0, 4];
    assert(v@ =~= seq![EAP_SUCCESS, u8Identifier, 0u8, 4u8]);
    Some(v)
}

/// Appends the GMK activation data (the first three bytes of the protected
/// channel data) to `pMemoryBuffer`.
pub fn EAP_PSK_Encode_GMK_Activation(pPChannelData: &Vec<u8>, pMemoryBuffer: &mut Vec<u8>)
    requires
        pPChannelData@.len() >= 3,
    ensures
        final(pMemoryBuffer)@ == old(pMemoryBuffer)@ + pPChannelData@.take(3),
{
    pMemoryBuffer.push(pPChannelData[0]);
    pMemoryBuffer.push(pPChannelData[1]);
    pMemoryBuffer.push(pPChannelData[2]);
    assert(pMemoryBuffer@ =~= old(pMemoryBuffer)@ + pPChannelData@.take(3));
}

/// The length field as written reads back as the length, for a length that
/// fits in sixteen bits.
proof fn lemma_len_field(v: Seq<u8>, n: int)
    requires
        v.len() >= 4,
        0 <= n < 0x10000,
    ensures
        eap_len_field(with_len(v, n)) == n,
        with_len(v, n).len() == v.len(),
        forall|i: int| 0 <= i < v.len() && i != 2 && i != 3 ==> #[trigger] with_len(v, n)[i] == v[i],
{
    let w = with_len(v, n);
    assert(w[2] == ((n / 256) % 256) as u8);
    assert(w[3] == (n % 256) as u8);
    assert((n / 256) % 256 == n / 256) by (nonlinear_arith)
        requires
            0 <= n < 0x10000,
    ;
    assert((n / 256) * 256 + n % 256 == n) by (nonlinear_arith)
        requires
            0 <= n,
    ;
}

/// A device reads back the first EAP-PSK message as the server wrote it: the
/// EAP header decodes as a request of type T0 with the server's identifier,
/// and its data is RandS then IdS (`eap_psk_decode_message1` splits it so),
/// for an IdS short enough for the EAP length field.
pub proof fn lemma_eap_msg1_reads_back(id: u8, rand_s: Seq<u8>, id_s: Seq<u8>)
    requires
        rand_s.len() == 16,
        22 + id_s.len() < 0x10000,
    ensures
        ({
            let m = spec_eap_msg1(id, rand_s, id_s);
            &&& spec_eap_decodes(m)
            &&& m[0] == EAP_REQUEST
            &&& m[1] == id
            &&& eap_len_field(m) == m.len()
            &&& m[5] == EAP_PSK_T0
            &&& m.skip(6).len() >= 16
            &&& m.skip(6).subrange(0, 16) == rand_s
            &&& m.skip(6).skip(16) == id_s
        }),
{
    let v = seq![EAP_REQUEST, id, 0u8, 0u8, EAP_PSK_IANA_TYPE, EAP_PSK_T0] + rand_s + id_s;
    lemma_len_field(v, v.len() as int);
    let m = with_len(v, v.len() as int);
    assert(m[0] == v[0] && m[1] == v[1] && m[4] == v[4] && m[5] == v[5]);
    assert(m.skip(6).subrange(0, 16) =~= rand_s) by {
        assert forall|i: int| 0 <= i < 16 implies m.skip(6).subrange(0, 16)[i] == rand_s[i] by {
            assert(m[6 + i] == v[6 + i]);
        }
    }
    assert(m.skip(6).skip(16) =~= id_s) by {
        assert forall|i: int| 0 <= i < id_s.len() implies m.skip(6).skip(16)[i] == id_s[i] by {
            assert(m[22 + i] == v[22 + i]);
        }
    }
}

/// The server accepts the second EAP-PSK message that a device with the same
/// authentication key writes: the EAP header decodes as a response of type
/// T1, RandS and RandP stand where `eap_psk_decode_message2` reads them, and
/// the MacP checks, for an IdP of eight bytes. A CMAC-AES-128 tag has sixteen
/// bytes, as the result type of the tag's computation shows.
pub proof fn lemma_eap_msg2_accepted(
    ak: Seq<u8>,
    id: u8,
    rand_s: Seq<u8>,
    rand_p: Seq<u8>,
    id_s: Seq<u8>,
    id_p: Seq<u8>,
)
    requires
        rand_s.len() == 16,
        rand_p.len() == 16,
        id_p.len() == 8,
        cmac_aes128(ak, id_p + id_s + rand_s + rand_p).len() == 16,
    ensures
        ({
            let m = spec_eap_msg2(Seq::empty(), ak, id, rand_s, rand_p, id_s, id_p);
            &&& spec_eap_decodes(m)
            &&& m[0] == EAP_RESPONSE
            &&& m[1] == id
            &&& eap_len_field(m) == m.len()
            &&& m[5] == EAP_PSK_T1
            &&& m.skip(6).len() == 56
            &&& m.skip(6).subrange(0, 16) == rand_s
            &&& m.skip(6).subrange(16, 32) == rand_p
            &&& spec_mac_p_checks(m.skip(6), ak, id_s)
        }),
{
    let mac_p = cmac_aes128(ak, id_p + id_s + rand_s + rand_p);
    let v = Seq::<u8>::empty() + seq![EAP_RESPONSE, id, 0u8, 0u8, EAP_PSK_IANA_TYPE, EAP_PSK_T1]
        + rand_s + rand_p + mac_p + id_p;
    assert(v.len() == 62);
    lemma_len_field(v, v.len() as int);
    let m = with_len(v, v.len() as int);
    assert(m == spec_eap_msg2(Seq::empty(), ak, id, rand_s, rand_p, id_s, id_p));
    assert(m[0] == v[0] && m[1] == v[1] && m[4] == v[4] && m[5] == v[5]);
    let e = m.skip(6);
    assert forall|i: int| 0 <= i < 56 implies e[i] == v[6 + i] by {
        assert(m[6 + i] == v[6 + i]);
    }
    assert(e.subrange(0, 16) =~= rand_s);
    assert(e.subrange(16, 32) =~= rand_p);
    assert(e.subrange(32, 48) =~= mac_p);
    assert(e.subrange(48, 56) =~= id_p);
}

} // verus!
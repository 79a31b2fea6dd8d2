//! The bootstrapping server of the coordinator: it runs EAP-PSK with each
//! device that asks to join (LBP joining messages), hands out short addresses
//! and the group master key, and follows the modem's confirms.
use vstd::prelude::*;

use crate::adp::{LbpReponse, EAdpStatus, TAddress, TAdpBand, TExtendedAddress};
use crate::app_config;
use crate::app_config::be2;
use crate::lbp;
use crate::lbp::{spec_lbp_frame, JoiningMessage, LbpMessageType};
use crate::lbp_functions::{
    append_bytes, bytes16_eq, eap_psk_decode_message, eap_psk_decode_message2,
    eap_psk_encode_message1, eap_psk_initialize, eap_psk_initialize_tek, eax_aes128_decrypt,
    spec_eap_aad, spec_eap_decodes, spec_eap_msg1, spec_eap_msg3, spec_mac_p_checks,
    spec_nonce_block, spec_psk_ak, spec_psk_kdk, spec_psk_tek, zeros16, TEapPskContext, TEapPskKey,
    TEapPskNetworkAccessIdentifierS, TEapPskRand, EAP_PSK_Decode_Message4,
    EAP_PSK_Encode_EAP_Success, EAP_PSK_Encode_Message3, EAP_PSK_T1, EAP_PSK_T3, EAP_RESPONSE,
    EAP_SUCCESS, PCHANNEL_RESULT_DONE_SUCCESS, eap_len_field,
};
use crate::request;

verus! {

/// `std::time::Instant`: when the manager was made.
#[verifier::external_type_specification]
#[verifier::external_body]
pub struct ExInstant(std::time::Instant);

/// `Instant::now`: the time, so nothing is stated of it.
#[verifier::external_body]
fn instant_now() -> std::time::Instant {
    std::time::Instant::now()
}

/// `Instant::elapsed` then `Duration::as_millis`: milliseconds since `t`, as
/// the clock gives them. Only the bound that the type gives is stated: a
/// `Duration` holds at most `u64::MAX` seconds and 999,999,999 nanoseconds
/// (`Duration::MAX`), so the whole milliseconds are at most
/// `u64::MAX * 1000 + 999`.
#[verifier::external_body]
fn elapsed_ms(t: &std::time::Instant) -> (r: u128)
    ensures
        r <= 18_446_744_073_709_551_615_999u128,
{
    t.elapsed().as_millis()
}

/// How long a device is given to answer, in milliseconds.
pub const UC_MESSAGE_TIMEOUT_MS: u128 = 40_000;

pub const CONF_PARAM_SHORT_ADDR: u8 = 0x1D;

pub const CONF_PARAM_GMK: u8 = 0x27;

pub const CONF_PARAM_GMK_ACTIVATION: u8 = 0x2B;

pub const CONF_PARAM_GMK_REMOVAL: u8 = 0x2F;

pub const CONF_PARAM_RESULT: u8 = 0x31;

/// Where the bootstrapping of one device stands.
#[derive(Clone, Copy, PartialEq, Eq, Structural, Debug)]
pub enum DeviceState {
    BS_STATE_WAITING_JOINNING,
    BS_STATE_SENT_EAP_MSG_1,
    BS_STATE_WAITING_EAP_MSG_2,
    BS_STATE_SENT_EAP_MSG_3,
    BS_STATE_WAITING_EAP_MSG_4,
    BS_STATE_SENT_EAP_MSG_ACCEPTED,
    BS_STATE_SENT_EAP_MSG_DECLINED,
}

/// What the server keeps of one device.
#[derive(Debug)]
pub struct DeviceSlot {
    pub state: DeviceState,
    pub m_lbd_address: TExtendedAddress,
    pub us_lba_src_addr: u16,
    pub us_assigned_short_address: u16,
    pub uc_tx_handle: u8,
    pub ul_timeout: u128,
    pub uc_tx_attemps: u8,
    pub m_rand_s: TEapPskRand,
    pub uc_pending_confirms: u8,
    pub uc_pending_tx_handler: u8,
    pub m_psk_context: TEapPskContext,
    pub data: Option<Vec<u8>>,
}

/// A device slot as plain values.
pub struct DeviceSlotView {
    pub state: DeviceState,
    pub addr: Seq<u8>,
    pub lba_src_addr: u16,
    pub short_addr: u16,
    pub tx_handle: u8,
    pub timeout: u128,
    pub tx_attempts: u8,
    pub rand_s: Seq<u8>,
    pub pending_confirms: u8,
    pub pending_tx_handler: u8,
    pub kdk: Seq<u8>,
    pub ak: Seq<u8>,
    pub tek: Seq<u8>,
    pub ctx_id_s: Seq<u8>,
    pub ctx_rand_p: Seq<u8>,
    pub ctx_rand_s: Seq<u8>,
    pub data: Option<Seq<u8>>,
}

pub open spec fn opt_view(o: Option<Vec<u8>>) -> Option<Seq<u8>> {
    match o {
        Some(v) => Some(v@),
        None => None,
    }
}

impl View for DeviceSlot {
    type V = DeviceSlotView;

    open spec fn view(&self) -> DeviceSlotView {
        DeviceSlotView {
            state: self.state,
            addr: self.m_lbd_address.0@,
            lba_src_addr: self.us_lba_src_addr,
            short_addr: self.us_assigned_short_address,
            tx_handle: self.uc_tx_handle,
            timeout: self.ul_timeout,
            tx_attempts: self.uc_tx_attemps,
            rand_s: self.m_rand_s.0@,
            pending_confirms: self.uc_pending_confirms,
            pending_tx_handler: self.uc_pending_tx_handler,
            kdk: self.m_psk_context.m_Kdk.0@,
            ak: self.m_psk_context.m_Ak.0@,
            tek: self.m_psk_context.m_Tek.0@,
            ctx_id_s: self.m_psk_context.m_IdS.0@,
            ctx_rand_p: self.m_psk_context.m_RandP.0@,
            ctx_rand_s: self.m_psk_context.m_RandS.0@,
            data: opt_view(self.data),
        }
    }
}

/// A slot as made for a device that was not known, or as reset: waiting for
/// a joining message, no handle in use (0xFF), every key zero.
pub open spec fn fresh_slot(addr: Seq<u8>, short_addr: u16) -> DeviceSlotView {
    DeviceSlotView {
        state: DeviceState::BS_STATE_WAITING_JOINNING,
        addr,
        lba_src_addr: 0,
        short_addr,
        tx_handle: 0xff,
        timeout: 0,
        tx_attempts: 0,
        rand_s: zeros16(),
        pending_confirms: 0,
        pending_tx_handler: 0,
        kdk: zeros16(),
        ak: zeros16(),
        tek: zeros16(),
        ctx_id_s: Seq::empty(),
        ctx_rand_p: zeros16(),
        ctx_rand_s: zeros16(),
        data: None,
    }
}

impl DeviceSlot {
    pub fn new(ext_addr: TExtendedAddress, short_address: u16) -> (r: Self)
        ensures
            r@ == fresh_slot(ext_addr.0@, short_address),
    {
        DeviceSlot {
            state: DeviceState::BS_STATE_WAITING_JOINNING,
            m_lbd_address: ext_addr,
            us_lba_src_addr: 0,
            us_assigned_short_address: short_address,
            uc_tx_handle: 0xff,
            ul_timeout: 0,
            uc_tx_attemps: 0,
            m_rand_s: TEapPskRand::new(),
            uc_pending_confirms: 0,
            uc_pending_tx_handler: 0,
            m_psk_context: TEapPskContext::new(),
            data: None,
        }
    }

    pub fn reset(&mut self, ext_addr: TExtendedAddress, short_addr: u16)
        ensures
            final(self)@ == fresh_slot(ext_addr.0@, short_addr),
    {
        self.state = DeviceState::BS_STATE_WAITING_JOINNING;
        self.m_lbd_address = ext_addr;
        self.us_lba_src_addr = 0;
        self.us_assigned_short_address = short_addr;
        self.uc_tx_handle = 0xff;
        self.ul_timeout = 0;
        self.uc_tx_attemps = 0;
        self.m_rand_s = TEapPskRand::new();
        self.uc_pending_confirms = 0;
        self.uc_pending_tx_handler = 0;
        self.m_psk_context = TEapPskContext::new();
        self.data = None;
    }
}

/// The devices the server knows, in the order they first asked to join.
pub struct DeviceManager {
    pub devices: Vec<DeviceSlot>,
    pub initial_short_address: u16,
}

/// Whether the slots are as the server keeps them: the device that joined
/// n-th has short address n, and no extended address occurs twice.
pub open spec fn devices_wf(d: Seq<DeviceSlotView>) -> bool {
    &&& d.len() <= 0xFFFF
    &&& forall|i: int| 0 <= i < d.len() ==> (#[trigger] d[i]).short_addr == i + 1
    &&& forall|i: int, j: int| 0 <= i < j < d.len() ==> (#[trigger] d[i]).addr != (#[trigger] d[j]).addr
    &&& forall|i: int| 0 <= i < d.len() ==> (#[trigger] d[i]).addr.len() == 8
}

/// The index of the device with extended address `a`, or -1.
pub open spec fn slot_index(d: Seq<DeviceSlotView>, a: Seq<u8>) -> int {
    if exists|i: int| 0 <= i < d.len() && (#[trigger] d[i]).addr == a {
        choose|i: int| 0 <= i < d.len() && (#[trigger] d[i]).addr == a
    } else {
        -1
    }
}

/// The slots after a device with address `a` is looked up: unchanged when it
/// is known, else with a fresh slot for it at the end, with the next short
/// address.
pub open spec fn with_device(d: Seq<DeviceSlotView>, a: Seq<u8>) -> Seq<DeviceSlotView> {
    if slot_index(d, a) >= 0 {
        d
    } else {
        d.push(fresh_slot(a, (d.len() + 1) as u16))
    }
}

/// Where the device with address `a` stands once looked up.
pub open spec fn device_index(d: Seq<DeviceSlotView>, a: Seq<u8>) -> int {
    if slot_index(d, a) >= 0 {
        slot_index(d, a)
    } else {
        d.len() as int
    }
}

impl DeviceManager {
    pub open spec fn view_devices(&self) -> Seq<DeviceSlotView> {
        self.devices@.map_values(|s: DeviceSlot| s@)
    }

    pub open spec fn wf(&self) -> bool {
        &&& devices_wf(self.view_devices())
        &&& self.initial_short_address == if self.devices@.len() == 0 {
            1
        } else {
            self.devices@.len()
        }
    }

    pub fn new() -> (r: Self)
        ensures
            r.wf(),
            r.view_devices() == Seq::<DeviceSlotView>::empty(),
    {
        let r = DeviceManager { devices: Vec::new(), initial_short_address: 1 };
        assert(r.view_devices() =~= Seq::<DeviceSlotView>::empty());
        r
    }

    fn contains_short_addr(&self, short_addr: u16) -> (r: bool)
        ensures
            r == exists|i: int|
                0 <= i < self.devices@.len() && (#[trigger] self.devices@[i]).us_assigned_short_address
                    == short_addr,
    {
        let mut i: usize = 0;
        while i < self.devices.len()
            invariant
                i <= self.devices@.len(),
                forall|j: int|
                    0 <= j < i ==> (#[trigger] self.devices@[j]).us_assigned_short_address
                        != short_addr,
            decreases self.devices.len() - i,
        {
            if self.devices[i].us_assigned_short_address == short_addr {
                return true;
            }
            i = i + 1;
        }
        false
    }

    /// The index of the device with extended address `addr`.
    fn index_of(&self, addr: &TExtendedAddress) -> (r: Option<usize>)
        requires
            self.wf(),
        ensures
            r matches Some(i) ==> i == slot_index(self.view_devices(), addr.0@) && i
                < self.devices@.len(),
            r is None ==> slot_index(self.view_devices(), addr.0@) == -1,
    {
        let ghost d = self.view_devices();
        let mut i: usize = 0;
        while i < self.devices.len()
            invariant
                i <= self.devices@.len(),
                d == self.view_devices(),
                devices_wf(d),
                forall|j: int| 0 <= j < i ==> (#[trigger] d[j]).addr != addr.0@,
            decreases self.devices.len() - i,
        {
            if self.devices[i].m_lbd_address.same_as(addr) {
                assert(d[i as int].addr == addr.0@);
                let ghost k = slot_index(d, addr.0@);
                assert(0 <= k < d.len() && d[k].addr == addr.0@);
                assert(k == i) by {
                    if k < i {
                        assert(d[k].addr != addr.0@);
                    } else if k > i {
                        assert(d[i as int].addr != d[k].addr);
                    }
                }
                return Some(i);
            }
            i = i + 1;
        }
        assert(!exists|j: int| 0 <= j < d.len() && (#[trigger] d[j]).addr == addr.0@);
        None
    }

    pub fn get_device_by_short_addr(&self, short_addr: u16) -> (r: Option<&DeviceSlot>)
        requires
            self.wf(),
        ensures
            r matches Some(s) ==> 1 <= short_addr <= self.devices@.len() && *s
                == self.devices@[short_addr - 1],
            r is None <==> !(1 <= short_addr <= self.devices@.len()),
    {
        let ghost d = self.view_devices();
        let mut i: usize = 0;
        while i < self.devices.len()
            invariant
                i <= self.devices@.len(),
                d == self.view_devices(),
                devices_wf(d),
                forall|j: int| 0 <= j < i ==> (#[trigger] d[j]).short_addr != short_addr,
            decreases self.devices.len() - i,
        {
            if self.devices[i].us_assigned_short_address == short_addr {
                assert(d[i as int].short_addr == i + 1);
                return Some(&self.devices[i]);
            }
            i = i + 1;
        }
        assert(!(1 <= short_addr <= self.devices@.len())) by {
            if 1 <= short_addr <= self.devices@.len() {
                assert(d[short_addr - 1].short_addr == short_addr);
            }
        }
        None
    }

    pub fn get_device_by_addr(&self, addr: &TExtendedAddress) -> (r: Option<&DeviceSlot>)
        requires
            self.wf(),
        ensures
            r matches Some(s) ==> slot_index(self.view_devices(), addr.0@) >= 0 && *s
                == self.devices@[slot_index(self.view_devices(), addr.0@)],
            r is None <==> slot_index(self.view_devices(), addr.0@) == -1,
    {
        match self.index_of(addr) {
            Some(i) => Some(&self.devices[i]),
            None => None,
        }
    }

    /// The short address the next new device gets: the first one not in use
    /// from the last one handed out on.
    pub fn next_short_address(&self) -> (r: u16)
        requires
            self.wf(),
            self.devices@.len() < 0xFFFF,
        ensures
            r == self.devices@.len() + 1,
    {
        let ghost d = self.view_devices();
        let ghost n = self.devices@.len();
        let mut short_addr = self.initial_short_address;
        while self.contains_short_addr(short_addr)
            invariant
                d == self.view_devices(),
                devices_wf(d),
                n == self.devices@.len(),
                n < 0xFFFF,
                1 <= short_addr <= n + 1,
            decreases n + 1 - short_addr,
        {
            assert(short_addr <= n) by {
                let k = choose|i: int|
                    0 <= i < self.devices@.len() && (#[trigger] self.devices@[i]).us_assigned_short_address
                        == short_addr;
                assert(d[k].short_addr == k + 1);
            }
            short_addr = short_addr + 1;
        }
        assert(short_addr == n + 1) by {
            if short_addr <= n {
                assert(d[short_addr - 1].short_addr == short_addr);
                assert(self.devices@[short_addr - 1].us_assigned_short_address == short_addr);
            }
        }
        short_addr
    }

    /// The index of the device with address `addr`, which is added with the
    /// next short address when it is not known yet.
    pub fn add_or_get_by_addr(&mut self, addr: &TExtendedAddress) -> (r: usize)
        requires
            old(self).wf(),
            old(self).devices@.len() < 0xFFFF,
        ensures
            final(self).wf(),
            final(self).view_devices() == with_device(old(self).view_devices(), addr.0@),
            r == device_index(old(self).view_devices(), addr.0@),
            r < final(self).devices@.len(),
    {
        let short_addr = self.next_short_address();
        match self.index_of(addr) {
            Some(i) => i,
            None => {
                let ghost d = self.view_devices();
                self.initial_short_address = short_addr;
                self.devices.push(DeviceSlot::new(*addr, short_addr));
                assert(self.view_devices() =~= d.push(fresh_slot(addr.0@, short_addr)));
                assert forall|i: int, j: int|
                    0 <= i < j < self.view_devices().len() implies (#[trigger] self.view_devices()[i]).addr
                    != (#[trigger] self.view_devices()[j]).addr by {
                    if j == d.len() {
                        assert(d[i].addr != addr.0@);
                    }
                }
                self.devices.len() - 1
            },
        }
    }

    pub fn get_devices(&self) -> (r: &Vec<DeviceSlot>)
        ensures
            r@ == self.devices@,
    {
        &self.devices
    }
}


/// The server's state as plain values.
pub struct LbpManagerView {
    pub eap_identifier: u8,
    pub ext_addr: Seq<u8>,
    pub pending: u8,
    pub key_index: u8,
    pub nsdu_handle: u8,
    pub id_s: Seq<u8>,
    pub nonce: u32,
    pub devices: Seq<DeviceSlotView>,
    pub psk: Seq<u8>,
    pub gmk: Seq<u8>,
    pub rekey_gmk: Seq<u8>,
    pub max_hops: u8,
}

/// The bootstrapping server. The pre-shared key, the group master keys and
/// the hop limit are the settings it was made with.
pub struct LbpManager {
    u8_eap_identifier: u8,
    ext_addr: [u8; 8],
    pending: u8,
    current_key_index: u8,
    uc_nsdu_handle: u8,
    g_id_s: TEapPskNetworkAccessIdentifierS,
    start_time: std::time::Instant,
    g_u32_nonce: u32,
    device_manager: DeviceManager,
    psk: TEapPskKey,
    gmk: Vec<u8>,
    rekey_gmk: Vec<u8>,
    max_hops: u8,
}

impl View for LbpManager {
    type V = LbpManagerView;

    closed spec fn view(&self) -> LbpManagerView {
        LbpManagerView {
            eap_identifier: self.u8_eap_identifier,
            ext_addr: self.ext_addr@,
            pending: self.pending,
            key_index: self.current_key_index,
            nsdu_handle: self.uc_nsdu_handle,
            id_s: self.g_id_s.0@,
            nonce: self.g_u32_nonce,
            devices: self.device_manager.view_devices(),
            psk: self.psk.0@,
            gmk: self.gmk@,
            rekey_gmk: self.rekey_gmk@,
            max_hops: self.max_hops,
        }
    }
}

/// Longest group master key that the server hands out: the third message
/// must still fit in memory.
pub open spec fn gmk_fits(g: Seq<u8>) -> bool {
    g.len() + 74 <= usize::MAX
}

/// Whether the server's state is as its operations keep it.
pub open spec fn manager_wf(m: LbpManagerView) -> bool {
    &&& devices_wf(m.devices)
    &&& gmk_fits(m.gmk)
    &&& gmk_fits(m.rekey_gmk)
    &&& m.psk.len() == 16
}

/// The protected channel data of the third message: the short address, the
/// GMK and its activation, or (on a rekeying) the next GMK alone.
pub open spec fn spec_t1_data(
    short_addr: u16,
    key_index: u8,
    rekey: bool,
    gmk: Seq<u8>,
    rekey_gmk: Seq<u8>,
) -> Seq<u8> {
    if !rekey {
        seq![0x02u8, CONF_PARAM_SHORT_ADDR, 2u8] + be2(short_addr) + seq![
            CONF_PARAM_GMK,
            17u8,
            key_index,
        ] + gmk + seq![CONF_PARAM_GMK_ACTIVATION, 1u8, key_index]
    } else {
        seq![0x02u8, CONF_PARAM_GMK, 17u8, key_index ^ 1u8] + rekey_gmk
    }
}

/// Whether the second EAP-PSK message `eap` of device `d` is accepted: its
/// MacP checks and it echoes the RandS that was sent.
pub open spec fn spec_t1_accepts(eap: Seq<u8>, d: DeviceSlotView, id_s: Seq<u8>) -> bool {
    spec_mac_p_checks(eap, d.ak, id_s) && eap.subrange(0, 16) == d.rand_s
}

/// The transient key derived from the RandP of the second message.
pub open spec fn spec_t1_tek(eap: Seq<u8>, d: DeviceSlotView) -> Seq<u8> {
    spec_psk_tek(d.kdk, eap.subrange(16, 32))
}

/// The third EAP-PSK message sent in answer to `eap`, or `None` when it
/// cannot be encrypted.
pub open spec fn spec_t1_msg3(
    eap: Seq<u8>,
    d: DeviceSlotView,
    id_s: Seq<u8>,
    ident: u8,
    nonce: u32,
    pdata: Seq<u8>,
) -> Option<Seq<u8>> {
    if pdata.len() + 1 <= 0x10_0000_0000 {
        Some(
            spec_eap_msg3(
                d.ak,
                spec_t1_tek(eap, d),
                ident,
                eap.subrange(0, 16),
                eap.subrange(16, 32),
                id_s,
                nonce,
                PCHANNEL_RESULT_DONE_SUCCESS,
                pdata,
            ),
        )
    } else {
        None
    }
}

pub open spec fn or_empty(o: Option<Seq<u8>>) -> Seq<u8> {
    match o {
        Some(v) => v,
        None => Seq::empty(),
    }
}

/// Whether the fourth EAP-PSK message `eap`, sent in the LBP data `bd`,
/// decrypts under the device's TEK.
pub open spec fn spec_t3_decrypts(eap: Seq<u8>, bd: Seq<u8>, tek: Seq<u8>) -> bool {
    eap.len() >= 41 && eax_aes128_decrypt(
        tek,
        spec_nonce_block(eap.subrange(16, 20)),
        spec_eap_aad(bd.subrange(0, 22)),
        eap.skip(36) + eap.subrange(20, 36),
    ) is Some
}

/// The EAP success message.
pub open spec fn spec_eap_success(ident: u8) -> Seq<u8> {
    seq![EAP_SUCCESS, ident, 0u8, 4u8]
}

pub open spec fn slot_with_data(d: DeviceSlotView, data: Option<Seq<u8>>) -> DeviceSlotView {
    DeviceSlotView { data, ..d }
}

pub open spec fn slot_with_state(d: DeviceSlotView, s: DeviceState) -> DeviceSlotView {
    DeviceSlotView { state: s, ..d }
}

/// A device whose bootstrapping is given up: waiting again, no confirm
/// pending.
pub open spec fn abort_slot(d: DeviceSlotView) -> DeviceSlotView {
    DeviceSlotView {
        state: DeviceState::BS_STATE_WAITING_JOINNING,
        pending_confirms: 0,
        ..d
    }
}

impl LbpManager {
    pub closed spec fn wf(&self) -> bool {
        &&& self.device_manager.wf()
        &&& manager_wf(self@)
    }

    /// A server for the given settings: the server identity of the ARIB band
    /// or of the CENELEC and FCC bands, the pre-shared key, the group master
    /// keys and the hop limit.
    /// The state of a server made for the settings `g3`.
    pub open spec fn new_view(g3: &app_config::G3) -> LbpManagerView {
        LbpManagerView {
            eap_identifier: 0,
            ext_addr: Seq::new(8, |i: int| 0u8),
            pending: 0,
            key_index: 0,
            nsdu_handle: 0,
            id_s: if g3.band == 3 {
                g3.ids_arib@
            } else {
                g3.ids_cenelec_fcc@
            },
            nonce: 0,
            devices: Seq::empty(),
            psk: g3.psk@,
            gmk: g3.gmk@,
            rekey_gmk: g3.rekey_gmk@,
            max_hops: g3.max_hops,
        }
    }

    pub fn new(g3: &app_config::G3) -> (r: Self)
        requires
            gmk_fits(g3.gmk@),
            gmk_fits(g3.rekey_gmk@),
        ensures
            r.wf(),
            r@ == LbpManager::new_view(g3),
            r@ == (LbpManagerView {
                eap_identifier: 0,
                ext_addr: Seq::new(8, |i: int| 0u8),
                pending: 0,
                key_index: 0,
                nsdu_handle: 0,
                id_s: if g3.band == 3 {
                    g3.ids_arib@
                } else {
                    g3.ids_cenelec_fcc@
                },
                nonce: 0,
                devices: Seq::empty(),
                psk: g3.psk@,
                gmk: g3.gmk@,
                rekey_gmk: g3.rekey_gmk@,
                max_hops: g3.max_hops,
            }),
    {
        let band = TAdpBand::ADP_BAND_ARIB.into_primitive();
        let id_s = if g3.band == band {
            TEapPskNetworkAccessIdentifierS(vstd::slice::slice_to_vec(g3.ids_arib.as_slice()))
        } else {
            TEapPskNetworkAccessIdentifierS(
                vstd::slice::slice_to_vec(g3.ids_cenelec_fcc.as_slice()),
            )
        };
        let r = LbpManager {
            u8_eap_identifier: 0,
            ext_addr: [0u8; 8],
            pending: 0,
            current_key_index: 0,
            uc_nsdu_handle: 0,
            g_id_s: id_s,
            start_time: instant_now(),
            g_u32_nonce: 0,
            device_manager: DeviceManager::new(),
            psk: TEapPskKey(g3.psk),
            gmk: vstd::slice::slice_to_vec(g3.gmk.as_slice()),
            rekey_gmk: vstd::slice::slice_to_vec(g3.rekey_gmk.as_slice()),
            max_hops: g3.max_hops,
        };
        assert(r.ext_addr@ =~= Seq::new(8, |i: int| 0u8));
        r
    }

    /// Answers the second EAP-PSK message of a device with the third one
    /// (in an LBP challenge): it checks MacP and the echoed RandS, derives
    /// the TEK and hands out the short address and the GMK (or, on a
    /// rekeying, the next GMK). It reads the fields at fixed places, so the
    /// message must hold at least 56 bytes.
    fn process_joining_eap_t1(
        p_eap_data: &[u8],
        p_device: &mut DeviceSlot,
        p_id_s: &TEapPskNetworkAccessIdentifierS,
        p_au8_curr_index: u8,
        p_rekey: bool,
        gmk: &[u8],
        rekey_gmk: &[u8],
        p_u8_eap_identifier: &mut u8,
        p_u32_nonce: &mut u32,
    ) -> (r: Option<Vec<u8>>)
        requires
            p_eap_data@.len() >= 56,
            gmk_fits(gmk@),
            gmk_fits(rekey_gmk@),
        ensures
            ({
                let d = old(p_device)@;
                let eap = p_eap_data@;
                if spec_t1_accepts(eap, d, p_id_s.0@) {
                    let m3 = spec_t1_msg3(
                        eap,
                        d,
                        p_id_s.0@,
                        *old(p_u8_eap_identifier),
                        *old(p_u32_nonce),
                        spec_t1_data(d.short_addr, p_au8_curr_index, p_rekey, gmk@, rekey_gmk@),
                    );
                    &&& final(p_device)@ == (DeviceSlotView {
                        tek: spec_t1_tek(eap, d),
                        data: m3,
                        ..d
                    })
                    &&& *final(p_u8_eap_identifier) == old(p_u8_eap_identifier).wrapping_add(1)
                    &&& *final(p_u32_nonce) == old(p_u32_nonce).wrapping_add(1)
                    &&& opt_view(r) == Some(
                        spec_lbp_frame(LbpMessageType::LBP_CHALLENGE, d.addr, or_empty(m3)),
                    )
                } else {
                    &&& final(p_device)@ == d
                    &&& *final(p_u8_eap_identifier) == *old(p_u8_eap_identifier)
                    &&& *final(p_u32_nonce) == *old(p_u32_nonce)
                    &&& r is None
                }
            }),
    {
        let mut rand_s: TEapPskRand = TEapPskRand([0;16]);
        let mut rand_p: TEapPskRand = TEapPskRand([0;16]);
        if eap_psk_decode_message2(
            p_eap_data,
            &p_device.m_psk_context,
            p_id_s,
            &mut rand_s,
            &mut rand_p,
        ) {
            if !bytes16_eq(&rand_s.0, &p_device.m_rand_s.0) {
                return None;
            }
            eap_psk_initialize_tek(&rand_p, &mut p_device.m_psk_context);
            let u16_short_addr = p_device.us_assigned_short_address;
            let mut p_data: Vec<u8> = Vec::new();
            p_data.push(0x02);
            if !p_rekey {
                p_data.push(CONF_PARAM_SHORT_ADDR);
                p_data.push(2);
                let hi = ((u16_short_addr & 0xFF00) >> 8u16) as u8;
                let lo = (u16_short_addr & 0x00FF) as u8;
                assert(hi == u16_short_addr / 256 && lo == u16_short_addr % 256) by (bit_vector)
                    requires
                        hi == ((u16_short_addr & 0xFF00u16) >> 8u16) as u8,
                        lo == (u16_short_addr & 0x00FFu16) as u8,
                ;
                p_data.push(hi);
                p_data.push(lo);
                p_data.push(CONF_PARAM_GMK);
                p_data.push(17);
                p_data.push(p_au8_curr_index);
                append_bytes(&mut p_data, gmk);
                p_data.push(CONF_PARAM_GMK_ACTIVATION);
                p_data.push(1);
                p_data.push(p_au8_curr_index);
            } else {
                p_data.push(CONF_PARAM_GMK);
                p_data.push(17);
                p_data.push(p_au8_curr_index ^ 0x01);
                append_bytes(&mut p_data, rekey_gmk);
            }
            assert(p_data@ =~= spec_t1_data(
                u16_short_addr,
                p_au8_curr_index,
                p_rekey,
                gmk@,
                rekey_gmk@,
            ));
            let m3 = EAP_PSK_Encode_Message3(
                &p_device.m_psk_context,
                *p_u8_eap_identifier,
                &rand_s,
                &rand_p,
                p_id_s,
                *p_u32_nonce,
                PCHANNEL_RESULT_DONE_SUCCESS,
                p_data.as_slice(),
            );
            let v: Vec<u8> = match &m3 {
                Some(data) => vstd::slice::slice_to_vec(data.as_slice()),
                None => Vec::new(),
            };
            p_device.data = m3;
            *p_u8_eap_identifier = p_u8_eap_identifier.wrapping_add(1);
            *p_u32_nonce = p_u32_nonce.wrapping_add(1);
            return Some(
                lbp::ChallengeMessage {
                    ext_addr: p_device.m_lbd_address,
                    bootstrapping_data: v,
                }.into(),
            );
        }
        None
    }

    /// Answers the fourth EAP-PSK message of a device with the EAP success
    /// (in an LBP accepted message), once it decrypts and echoes RandS.
    fn process_joining_eap_t3(
        p_device: &mut DeviceSlot,
        p_bootstrapping_data: &Vec<u8>,
        p_eap_data: &Vec<u8>,
        p_u8_eap_identifier: &mut u8,
    ) -> (r: Option<Vec<u8>>)
        requires
            p_eap_data@.len() >= 41 ==> p_bootstrapping_data@.len() >= 22,
        ensures
            ({
                let d = old(p_device)@;
                let eap = p_eap_data@;
                let succ = spec_eap_success(*old(p_u8_eap_identifier));
                if !spec_t3_decrypts(eap, p_bootstrapping_data@, d.tek) {
                    &&& final(p_device)@ == d
                    &&& *final(p_u8_eap_identifier) == *old(p_u8_eap_identifier)
                    &&& r is None
                } else if eap.subrange(0, 16) == d.rand_s {
                    &&& final(p_device)@ == slot_with_data(d, Some(succ))
                    &&& *final(p_u8_eap_identifier) == old(p_u8_eap_identifier).wrapping_add(1)
                    &&& opt_view(r) == Some(
                        spec_lbp_frame(LbpMessageType::LBP_ACCEPTED, d.addr, succ),
                    )
                } else {
                    &&& final(p_device)@ == slot_with_data(d, Some(succ))
                    &&& *final(p_u8_eap_identifier) == *old(p_u8_eap_identifier)
                    &&& r is None
                }
            }),
    {
        let mut rand_s: TEapPskRand = TEapPskRand::new();
        let mut u8_pchannel_result: u8 = 0;
        let mut u32_nonce: u32 = 0;
        let mut channel_data: Vec<u8> = Vec::new();
        if EAP_PSK_Decode_Message4(
            p_eap_data,
            &p_device.m_psk_context,
            p_bootstrapping_data,
            &mut rand_s,
            &mut u32_nonce,
            &mut u8_pchannel_result,
            &mut channel_data,
        ) {
            let succ = EAP_PSK_Encode_EAP_Success(*p_u8_eap_identifier);
            let v: Vec<u8> = match &succ {
                Some(data) => vstd::slice::slice_to_vec(data.as_slice()),
                None => Vec::new(),
            };
            p_device.data = succ;
            if !bytes16_eq(&rand_s.0, &p_device.m_rand_s.0) {
                return None;
            }
            *p_u8_eap_identifier = p_u8_eap_identifier.wrapping_add(1);
            return Some(
                lbp::AcceptedMessage {
                    ext_addr: p_device.m_lbd_address,
                    bootstrapping_data: v,
                }.into(),
            );
        }
        None
    }

    /// One past `current`, which it becomes too.
    fn get_next_short_addr(current: &mut u16) -> (r: u16)
        requires
            *old(current) < 0xFFFF,
        ensures
            r == *old(current) + 1,
            *final(current) == r,
    {
        *current = *current + 1;
        *current
    }
}


/// The T subfield that `eap_psk_decode_message` reports: byte 5 when the
/// length field reaches 6 (and fits), else the zero it starts from.
pub open spec fn spec_tsub(bd: Seq<u8>) -> u8 {
    if bd.len() >= 4 && eap_len_field(bd) <= bd.len() && eap_len_field(bd) >= 6 {
        bd[5]
    } else {
        0
    }
}

/// Whether a joining message with data `bd` is too short to be read: a
/// second EAP-PSK message shorter than 56 bytes from a device that waits for
/// one.
pub open spec fn spec_join_panics(state: DeviceState, bd: Seq<u8>) -> bool {
    &&& bd.len() > 0
    &&& spec_eap_decodes(bd)
    &&& bd[0] == EAP_RESPONSE
    &&& spec_tsub(bd) == EAP_PSK_T1
    &&& (state == DeviceState::BS_STATE_WAITING_EAP_MSG_2 || state
        == DeviceState::BS_STATE_SENT_EAP_MSG_1)
    &&& bd.len() < 62
}

/// What a joining message with data `bd` does to the slot `d` of the server
/// `m`: the slot after it, the next EAP identifier, the next nonce, and the
/// LBP frame to send back if any. `rand` is the RandS drawn when the message
/// (re)starts the authentication.
pub open spec fn spec_join_slot(
    m: LbpManagerView,
    d: DeviceSlotView,
    bd: Seq<u8>,
    rand: Seq<u8>,
) -> (DeviceSlotView, u8, u32, Option<Seq<u8>>) {
    let ident = m.eap_identifier;
    let nonce = m.nonce;
    if bd.len() == 0 {
        // a joining message without data (re)starts with the first EAP-PSK message
        let d1 = if d.state != DeviceState::BS_STATE_WAITING_JOINNING {
            fresh_slot(d.addr, d.short_addr)
        } else {
            d
        };
        let msg1 = spec_eap_msg1(ident, rand, m.id_s);
        (
            DeviceSlotView {
                state: DeviceState::BS_STATE_SENT_EAP_MSG_1,
                rand_s: rand,
                ak: spec_psk_ak(m.psk),
                kdk: spec_psk_kdk(m.psk),
                data: Some(msg1),
                ..d1
            },
            ident.wrapping_add(1),
            nonce,
            Some(spec_lbp_frame(LbpMessageType::LBP_CHALLENGE, d.addr, msg1)),
        )
    } else if !spec_eap_decodes(bd) || bd[0] != EAP_RESPONSE {
        (d, ident, nonce, None)
    } else if spec_tsub(bd) == EAP_PSK_T1 && (d.state == DeviceState::BS_STATE_WAITING_EAP_MSG_2
        || d.state == DeviceState::BS_STATE_SENT_EAP_MSG_1) {
        let eap = bd.skip(6);
        if spec_t1_accepts(eap, d, m.id_s) {
            let m3 = spec_t1_msg3(
                eap,
                d,
                m.id_s,
                ident,
                nonce,
                spec_t1_data(d.short_addr, m.key_index, false, m.gmk, m.rekey_gmk),
            );
            (
                DeviceSlotView {
                    state: DeviceState::BS_STATE_SENT_EAP_MSG_3,
                    tek: spec_t1_tek(eap, d),
                    data: m3,
                    ..d
                },
                ident.wrapping_add(1),
                nonce.wrapping_add(1),
                Some(spec_lbp_frame(LbpMessageType::LBP_CHALLENGE, d.addr, or_empty(m3))),
            )
        } else {
            (abort_slot(d), ident, nonce, None)
        }
    } else if spec_tsub(bd) == EAP_PSK_T3 && (d.state == DeviceState::BS_STATE_WAITING_EAP_MSG_4
        || d.state == DeviceState::BS_STATE_SENT_EAP_MSG_3) {
        let eap = bd.skip(6);
        let succ = spec_eap_success(ident);
        if !spec_t3_decrypts(eap, bd, d.tek) {
            (abort_slot(d), ident, nonce, None)
        } else if eap.subrange(0, 16) == d.rand_s {
            (
                slot_with_state(
                    slot_with_data(d, Some(succ)),
                    DeviceState::BS_STATE_SENT_EAP_MSG_ACCEPTED,
                ),
                ident.wrapping_add(1),
                nonce,
                Some(spec_lbp_frame(LbpMessageType::LBP_ACCEPTED, d.addr, succ)),
            )
        } else {
            (abort_slot(slot_with_data(d, Some(succ))), ident, nonce, None)
        }
    } else {
        // a message out of turn gives the bootstrapping up
        (abort_slot(d), ident, nonce, None)
    }
}

/// What a joining message from `addr` with data `bd` does to the server `m`:
/// the device is looked up (and added when new), then its slot goes as
/// `spec_join_slot` says.
pub open spec fn spec_joined(
    m: LbpManagerView,
    addr: Seq<u8>,
    bd: Seq<u8>,
    rand: Seq<u8>,
) -> (LbpManagerView, Option<Seq<u8>>) {
    let devs = with_device(m.devices, addr);
    let i = device_index(m.devices, addr);
    let m1 = LbpManagerView { devices: devs, ..m };
    let (d2, ident, nonce, out) = spec_join_slot(m1, devs[i], bd, rand);
    (
        LbpManagerView { devices: devs.update(i, d2), eap_identifier: ident, nonce, ..m },
        out,
    )
}

/// Changing a slot in place, without touching its addresses, keeps the slots
/// well formed.
proof fn lemma_wf_update(d: Seq<DeviceSlotView>, i: int, x: DeviceSlotView)
    requires
        devices_wf(d),
        0 <= i < d.len(),
        x.addr == d[i].addr,
        x.short_addr == d[i].short_addr,
    ensures
        devices_wf(d.update(i, x)),
{
    let e = d.update(i, x);
    assert forall|a: int, b: int| 0 <= a < b < e.len() implies (#[trigger] e[a]).addr
        != (#[trigger] e[b]).addr by {
        assert(d[a].addr != d[b].addr);
    }
    assert forall|a: int| 0 <= a < e.len() implies (#[trigger] e[a]).short_addr == a + 1 by {
        assert(d[a].short_addr == a + 1);
    }
}

/// The slot of the device with address `a` once looked up.
proof fn lemma_with_device(d: Seq<DeviceSlotView>, a: Seq<u8>)
    requires
        devices_wf(d),
        d.len() < 0xFFFF,
        a.len() == 8,
    ensures
        devices_wf(with_device(d, a)),
        0 <= device_index(d, a) < with_device(d, a).len(),
        with_device(d, a)[device_index(d, a)].addr == a,
        with_device(d, a).len() == d.len() || with_device(d, a).len() == d.len() + 1,
{
    if slot_index(d, a) >= 0 {
        let k = slot_index(d, a);
        assert(0 <= k < d.len() && d[k].addr == a);
    } else {
        let e = d.push(fresh_slot(a, (d.len() + 1) as u16));
        assert forall|x: int, y: int| 0 <= x < y < e.len() implies (#[trigger] e[x]).addr
            != (#[trigger] e[y]).addr by {
            if y == d.len() {
                assert(!(d[x].addr == a));
            } else {
                assert(d[x].addr != d[y].addr);
            }
        }
        assert forall|x: int| 0 <= x < e.len() implies (#[trigger] e[x]).short_addr == x + 1 by {
            if x < d.len() {
                assert(d[x].short_addr == x + 1);
            }
        }
        assert forall|x: int| 0 <= x < e.len() implies (#[trigger] e[x]).addr.len() == 8 by {
            if x < d.len() {
                assert(d[x].addr.len() == 8);
            }
        }
    }
}

impl LbpManager {
    /// Handles a joining message: a message without data (re)starts the
    /// authentication with the first EAP-PSK message; a second or fourth
    /// EAP-PSK message that the device's state expects goes on with it; any
    /// other EAP response gives it up. The answer is an LBP frame, if any.
    fn process_joining0(&mut self, msg: &JoiningMessage) -> (r: Option<Vec<u8>>)
        requires
            old(self).wf(),
            old(self)@.devices.len() < 0xFFFF,
            !spec_join_panics(
                with_device(old(self)@.devices, msg.ext_addr.0@)[device_index(
                    old(self)@.devices,
                    msg.ext_addr.0@,
                )].state,
                msg.bootstrapping_data@,
            ),
        ensures
            final(self).wf(),
            ({
                let i = device_index(old(self)@.devices, msg.ext_addr.0@);
                let (m2, out) = spec_joined(
                    old(self)@,
                    msg.ext_addr.0@,
                    msg.bootstrapping_data@,
                    final(self)@.devices[i].rand_s,
                );
                &&& final(self)@ == m2
                &&& opt_view(r) == out
            }),
    {
        let ghost m0 = self@;
        proof {
            lemma_with_device(m0.devices, msg.ext_addr.0@);
        }
        let i = self.device_manager.add_or_get_by_addr(&msg.ext_addr);
        let ghost m1 = self@;
        let ghost d0 = m1.devices[i as int];
        assert(m1 == LbpManagerView { devices: with_device(m0.devices, msg.ext_addr.0@), ..m0 });
        let device = &mut self.device_manager.devices[i];
        let mut result: Option<Vec<u8>> = None;
        if msg.bootstrapping_data.len() == 0 {
            if device.state != DeviceState::BS_STATE_WAITING_JOINNING {
                let o_short_addr = device.us_assigned_short_address;
                let o_ext_addr = device.m_lbd_address;
                device.reset(o_ext_addr, o_short_addr);
            }
            eap_psk_initialize(&self.psk, &mut device.m_psk_context);
            device.m_rand_s = TEapPskRand::new_random();
            let msg1 = eap_psk_encode_message1(self.u8_eap_identifier, &device.m_rand_s, &self.g_id_s);
            let v = vstd::slice::slice_to_vec(msg1.as_slice());
            device.data = Some(msg1);
            device.state = DeviceState::BS_STATE_SENT_EAP_MSG_1;
            self.u8_eap_identifier = self.u8_eap_identifier.wrapping_add(1);
            result = Some(
                lbp::ChallengeMessage {
                    ext_addr: msg.ext_addr,
                    bootstrapping_data: v,
                }.into(),
            );
        } else {
            let mut pu8_code = 0u8;
            let mut pu8_identifier = 0u8;
            let mut pu8_tsubfield = 0u8;
            let mut p_eap_data: Vec<u8> = Vec::new();
            if eap_psk_decode_message(
                &msg.bootstrapping_data,
                &mut pu8_code,
                &mut pu8_identifier,
                &mut pu8_tsubfield,
                &mut p_eap_data,
            ) {
                if pu8_code == EAP_RESPONSE {
                    if pu8_tsubfield == EAP_PSK_T1 && (device.state
                        == DeviceState::BS_STATE_WAITING_EAP_MSG_2 || device.state
                        == DeviceState::BS_STATE_SENT_EAP_MSG_1) {
                        match LbpManager::process_joining_eap_t1(
                            p_eap_data.as_slice(),
                            device,
                            &self.g_id_s,
                            self.current_key_index,
                            false,
                            self.gmk.as_slice(),
                            self.rekey_gmk.as_slice(),
                            &mut self.u8_eap_identifier,
                            &mut self.g_u32_nonce,
                        ) {
                            Some(out) => {
                                device.state = DeviceState::BS_STATE_SENT_EAP_MSG_3;
                                result = Some(out);
                            },
                            None => {
                                device.state = DeviceState::BS_STATE_WAITING_JOINNING;
                                device.uc_pending_confirms = 0;
                            },
                        }
                    } else if pu8_tsubfield == EAP_PSK_T3 && (device.state
                        == DeviceState::BS_STATE_WAITING_EAP_MSG_4 || device.state
                        == DeviceState::BS_STATE_SENT_EAP_MSG_3) {
                        match LbpManager::process_joining_eap_t3(
                            device,
                            &msg.bootstrapping_data,
                            &p_eap_data,
                            &mut self.u8_eap_identifier,
                        ) {
                            Some(out) => {
                                device.state = DeviceState::BS_STATE_SENT_EAP_MSG_ACCEPTED;
                                result = Some(out);
                            },
                            None => {
                                device.state = DeviceState::BS_STATE_WAITING_JOINNING;
                                device.uc_pending_confirms = 0;
                            },
                        }
                    } else {
                        device.state = DeviceState::BS_STATE_WAITING_JOINNING;
                        device.uc_pending_confirms = 0;
                    }
                }
            }
        }
        proof {
            lemma_wf_update(m1.devices, i as int, self@.devices[i as int]);
            assert(self@.devices =~= m1.devices.update(i as int, self@.devices[i as int]));
        }
        result
    }
}


/// What the modem's confirm `resp` of an LBP request does to slot `d`, `now`
/// milliseconds after the server started. The confirm of the one request in
/// flight moves the device on (to waiting for the next EAP-PSK message, or
/// back to waiting for a joining message after the last one or after a
/// failure); the confirm of the older of two requests only counts it off.
pub open spec fn spec_confirm(d: DeviceSlotView, resp: LbpReponse, now: u128) -> DeviceSlotView {
    if d.pending_confirms == 1 && resp.handle == d.tx_handle && d.state
        != DeviceState::BS_STATE_WAITING_JOINNING {
        let st = if resp.status == EAdpStatus::G3_SUCCESS {
            match d.state {
                DeviceState::BS_STATE_SENT_EAP_MSG_1 => DeviceState::BS_STATE_WAITING_EAP_MSG_2,
                DeviceState::BS_STATE_SENT_EAP_MSG_3 => DeviceState::BS_STATE_WAITING_EAP_MSG_4,
                _ => DeviceState::BS_STATE_WAITING_JOINNING,
            }
        } else {
            DeviceState::BS_STATE_WAITING_JOINNING
        };
        DeviceSlotView {
            state: st,
            pending_confirms: 0,
            timeout: (now + UC_MESSAGE_TIMEOUT_MS) as u128,
            ..d
        }
    } else if d.pending_confirms == 2 && resp.handle == d.pending_tx_handler {
        DeviceSlotView { pending_confirms: 1, timeout: (now + UC_MESSAGE_TIMEOUT_MS) as u128, ..d }
    } else {
        d
    }
}

/// The server after the confirm `resp`: every slot as `spec_confirm` says.
pub open spec fn spec_confirmed(m: LbpManagerView, resp: LbpReponse, now: u128) -> LbpManagerView {
    LbpManagerView {
        devices: Seq::new(m.devices.len(), |k: int| spec_confirm(m.devices[k], resp, now)),
        ..m
    }
}

/// Slot `d` once an LBP request goes out to it with handle `h`: an earlier
/// request still unconfirmed becomes the pending one, the timeout starts,
/// one more confirm is awaited.
pub open spec fn spec_sent(d: DeviceSlotView, h: u8, now: u128) -> DeviceSlotView {
    DeviceSlotView {
        pending_tx_handler: if d.pending_confirms > 0 {
            d.tx_handle
        } else {
            d.pending_tx_handler
        },
        tx_handle: h,
        timeout: (now + UC_MESSAGE_TIMEOUT_MS) as u128,
        tx_attempts: 0,
        pending_confirms: d.pending_confirms.wrapping_add(1),
        ..d
    }
}

/// Whether `process_msg` cannot take `msg`: any message but a joining one
/// (not implemented), a device that needs a short address when all are
/// taken, or a too short second EAP-PSK message.
pub open spec fn spec_msg_panics(m: LbpManagerView, msg: lbp::LbpMessage) -> bool {
    match msg {
        lbp::LbpMessage::Joining(j) => spec_joining_panics(m, j.ext_addr.0@, j.bootstrapping_data@),
        _ => true,
    }
}

/// Whether a joining message from `addr` with data `bd` cannot be taken: no
/// short address is left for a new device, or the data is a too short second
/// EAP-PSK message that the device waits for.
pub open spec fn spec_joining_panics(m: LbpManagerView, addr: Seq<u8>, bd: Seq<u8>) -> bool {
    ||| m.devices.len() >= 0xFFFF
    ||| spec_join_panics(with_device(m.devices, addr)[device_index(m.devices, addr)].state, bd)
}

/// The LBP request that carries `data` to the device with address `a`.
pub open spec fn spec_lbp_request_to(
    req: request::AdpLbpRequest,
    a: TExtendedAddress,
    data: Seq<u8>,
    handle: u8,
    max_hops: u8,
) -> bool {
    &&& req.dst_addr == TAddress::Extended(a)
    &&& req.data@ == data
    &&& req.handle == handle
    &&& req.max_hops == max_hops
    &&& req.discover_route
    &&& req.quality_of_service == 0
    &&& !req.security_enable
}

/// How the server `old` becomes `new` on the joining message `msg` at time
/// `now`, answering `r`: the joining message goes as `spec_joined` says, and
/// an answer goes out in an LBP request with the next NSDU handle, the same
/// handle that the device's slot then expects its confirm with.
pub open spec fn spec_msg_step(
    old: LbpManagerView,
    msg: lbp::LbpMessage,
    now: u128,
    new: LbpManagerView,
    r: Option<request::AdpLbpRequest>,
) -> bool {
    match msg {
        lbp::LbpMessage::Joining(j) => {
            let a = j.ext_addr.0@;
            let i = device_index(old.devices, a);
            let (m2, out) = spec_joined(old, a, j.bootstrapping_data@, new.devices[i].rand_s);
            match out {
                None => new == m2 && r is None,
                Some(o) => {
                    let h = m2.nsdu_handle.wrapping_add(1);
                    &&& new == LbpManagerView {
                        nsdu_handle: h,
                        devices: m2.devices.update(i, spec_sent(m2.devices[i], h, now)),
                        ..m2
                    }
                    &&& r matches Some(req) && spec_lbp_request_to(
                        req,
                        j.ext_addr,
                        o,
                        h,
                        old.max_hops,
                    )
                },
            }
        },
        _ => false,
    }
}

/// In well formed slots an address is found where it stands.
proof fn lemma_slot_index_unique(d: Seq<DeviceSlotView>, k: int, a: Seq<u8>)
    requires
        devices_wf(d),
        0 <= k < d.len(),
        d[k].addr == a,
    ensures
        slot_index(d, a) == k,
{
    let j = slot_index(d, a);
    assert(0 <= j < d.len() && d[j].addr == a);
    if j < k {
        assert(d[j].addr != d[k].addr);
    } else if j > k {
        assert(d[k].addr != d[j].addr);
    }
}

/// Once a device is looked up by its extended address (and added when it is
/// new), looking it up again by that address or by the short address of its
/// slot finds that same slot, and looking it up again adds nothing.
pub proof fn lemma_device_lookup_after_add(d: Seq<DeviceSlotView>, a: Seq<u8>)
    requires
        devices_wf(d),
        d.len() < 0xFFFF,
        a.len() == 8,
    ensures
        slot_index(with_device(d, a), a) == device_index(d, a),
        with_device(d, a)[device_index(d, a)].short_addr == device_index(d, a) + 1,
        with_device(d, a)[device_index(d, a)].addr == a,
        with_device(with_device(d, a), a) == with_device(d, a),
        device_index(with_device(d, a), a) == device_index(d, a),
{
    lemma_with_device(d, a);
    let e = with_device(d, a);
    let k = device_index(d, a);
    lemma_slot_index_unique(e, k, a);
}

impl LbpManager {
    /// Follows the modem's confirm of an LBP request, `now` milliseconds
    /// after the server started.
    pub fn process_response_at(&mut self, lbp_response: &LbpReponse, now: u128)
        requires
            old(self).wf(),
            now <= u128::MAX - UC_MESSAGE_TIMEOUT_MS,
        ensures
            final(self).wf(),
            final(self)@ == spec_confirmed(old(self)@, *lbp_response, now),
    {
        let ghost m0 = self@;
        let n = self.device_manager.devices.len();
        let mut k: usize = 0;
        while k < n
            invariant
                0 <= k <= n,
                n == m0.devices.len(),
                self@.devices.len() == n,
                now <= u128::MAX - UC_MESSAGE_TIMEOUT_MS,
                forall|j: int| 0 <= j < k ==> self@.devices[j] == spec_confirm(m0.devices[j], *lbp_response, now),
                forall|j: int| k <= j < n ==> self@.devices[j] == m0.devices[j],
                self@ == (LbpManagerView { devices: self@.devices, ..m0 }),
                self.device_manager.initial_short_address == old(self).device_manager.initial_short_address,
            decreases n - k,
        {
            let ghost before = self@.devices;
            let device = &mut self.device_manager.devices[k];
            if device.uc_pending_confirms == 1 && lbp_response.handle == device.uc_tx_handle
                && device.state != DeviceState::BS_STATE_WAITING_JOINNING {
                device.uc_pending_confirms = device.uc_pending_confirms - 1;
                if lbp_response.status == EAdpStatus::G3_SUCCESS {
                    if device.uc_pending_confirms == 0 {
                        match device.state {
                            DeviceState::BS_STATE_SENT_EAP_MSG_1 => {
                                device.state = DeviceState::BS_STATE_WAITING_EAP_MSG_2;
                            },
                            DeviceState::BS_STATE_SENT_EAP_MSG_3 => {
                                device.state = DeviceState::BS_STATE_WAITING_EAP_MSG_4;
                            },
                            _ => {
                                device.state = DeviceState::BS_STATE_WAITING_JOINNING;
                                device.uc_pending_confirms = 0;
                            },
                        }
                    }
                } else {
                    device.state = DeviceState::BS_STATE_WAITING_JOINNING;
                    device.uc_pending_confirms = 0;
                }
                device.ul_timeout = now + UC_MESSAGE_TIMEOUT_MS;
            } else if device.uc_pending_confirms == 2 && lbp_response.handle
                == device.uc_pending_tx_handler {
                device.uc_pending_confirms = device.uc_pending_confirms - 1;
                device.ul_timeout = now + UC_MESSAGE_TIMEOUT_MS;
            }
            assert(self@.devices[k as int] == spec_confirm(before[k as int], *lbp_response, now));
            assert(forall|j: int| 0 <= j < n && j != k ==> self@.devices[j] == before[j]);
            assert forall|j: int| 0 <= j < k + 1 implies self@.devices[j] == spec_confirm(
                m0.devices[j],
                *lbp_response,
                now,
            ) by {
                if j < k {
                    assert(before[j] == spec_confirm(m0.devices[j], *lbp_response, now));
                    assert(self@.devices[j] == before[j]);
                }
            }
            k = k + 1;
        }
        assert(self@.devices =~= spec_confirmed(m0, *lbp_response, now).devices);
        assert(devices_wf(self@.devices)) by {
            let e = self@.devices;
            assert forall|a: int, b: int| 0 <= a < b < e.len() implies (#[trigger] e[a]).addr
                != (#[trigger] e[b]).addr by {
                assert(m0.devices[a].addr != m0.devices[b].addr);
            }
            assert forall|a: int| 0 <= a < e.len() implies (#[trigger] e[a]).short_addr == a + 1 by {
                assert(m0.devices[a].short_addr == a + 1);
            }
            assert forall|a: int| 0 <= a < e.len() implies (#[trigger] e[a]).addr.len() == 8 by {
                assert(m0.devices[a].addr.len() == 8);
            }
        }
    }

    /// Follows the modem's confirm of an LBP request (see
    /// `process_response_at`), at the clock's time since the server started.
    pub fn process_response(&mut self, lbp_response: &LbpReponse)
        requires
            old(self).wf(),
        ensures
            final(self).wf(),
            exists|now: u128|
                now <= u128::MAX - UC_MESSAGE_TIMEOUT_MS && final(self)@ == spec_confirmed(
                    old(self)@,
                    *lbp_response,
                    now,
                ),
    {
        let now = elapsed_ms(&self.start_time);
        self.process_response_at(lbp_response, now);
    }

    /// Whether `process_msg` would panic on `lbp_message` (see
    /// `spec_msg_panics`); callers test it first.
    pub fn would_panic_on(&self, lbp_message: &lbp::LbpMessage) -> (r: bool)
        requires
            self.wf(),
        ensures
            r == spec_msg_panics(self@, *lbp_message),
    {
        match lbp_message {
            lbp::LbpMessage::Joining(j) => {
                if self.device_manager.devices.len() >= 0xFFFF {
                    return true;
                }
                proof {
                    lemma_with_device(self@.devices, j.ext_addr.0@);
                }
                let state = match self.device_manager.index_of(&j.ext_addr) {
                    Some(i) => self.device_manager.devices[i].state,
                    None => DeviceState::BS_STATE_WAITING_JOINNING,
                };
                let mut code = 0u8;
                let mut ident = 0u8;
                let mut tsub = 0u8;
                let mut eap: Vec<u8> = Vec::new();
                let ok = eap_psk_decode_message(
                    &j.bootstrapping_data,
                    &mut code,
                    &mut ident,
                    &mut tsub,
                    &mut eap,
                );
                j.bootstrapping_data.len() > 0 && ok && code == EAP_RESPONSE && tsub == EAP_PSK_T1
                    && (state == DeviceState::BS_STATE_WAITING_EAP_MSG_2 || state
                    == DeviceState::BS_STATE_SENT_EAP_MSG_1) && j.bootstrapping_data.len() < 62
            },
            _ => true,
        }
    }

    /// Handles an LBP message, `now` milliseconds after the server started:
    /// a joining message goes as `process_joining0` says, and its answer goes
    /// out in an LBP request to the device.
    pub fn process_msg_at(&mut self, lbp_message: &lbp::LbpMessage, now: u128) -> (r: Option<
        request::AdpLbpRequest,
    >)
        requires
            old(self).wf(),
            now <= u128::MAX - UC_MESSAGE_TIMEOUT_MS,
            !spec_msg_panics(old(self)@, *lbp_message),
        ensures
            final(self).wf(),
            spec_msg_step(old(self)@, *lbp_message, now, final(self)@, r),
    {
        match lbp_message {
            lbp::LbpMessage::Joining(joining_message) => {
                let ghost m0 = self@;
                let ghost a = joining_message.ext_addr.0@;
                let ghost i0 = device_index(m0.devices, a);
                proof {
                    lemma_with_device(m0.devices, a);
                }
                let out_message = self.process_joining0(joining_message);
                let ghost m2 = self@;
                match out_message {
                    Some(out) => {
                        proof {
                            lemma_slot_index_unique(m2.devices, i0, a);
                        }
                        match self.device_manager.index_of(&joining_message.ext_addr) {
                            Some(i) => {
                                let device = &mut self.device_manager.devices[i];
                                if device.uc_pending_confirms > 0 {
                                    device.uc_pending_tx_handler = device.uc_tx_handle;
                                }
                                self.uc_nsdu_handle = self.uc_nsdu_handle.wrapping_add(1);
                                device.uc_tx_handle = self.uc_nsdu_handle;
                                device.ul_timeout = now + UC_MESSAGE_TIMEOUT_MS;
                                device.uc_tx_attemps = 0;
                                device.uc_pending_confirms = device.uc_pending_confirms.wrapping_add(1);
                                let handle = device.uc_tx_handle;
                                proof {
                                    lemma_wf_update(m2.devices, i as int, self@.devices[i as int]);
                                    assert(self@.devices =~= m2.devices.update(
                                        i as int,
                                        spec_sent(m2.devices[i as int], self.uc_nsdu_handle, now),
                                    ));
                                }
                                Some(
                                    request::AdpLbpRequest::new(
                                        TAddress::Extended(joining_message.ext_addr),
                                        out,
                                        handle,
                                        self.max_hops,
                                        true,
                                        0,
                                        false,
                                    ),
                                )
                            },
                            None => None,
                        }
                    },
                    None => None,
                }
            },
            _ => None,
        }
    }

    /// Handles an LBP message (see `process_msg_at`) at the clock's time since
    /// the server started.
    pub fn process_msg(&mut self, lbp_message: &lbp::LbpMessage) -> (r: Option<
        request::AdpLbpRequest,
    >)
        requires
            old(self).wf(),
            !spec_msg_panics(old(self)@, *lbp_message),
        ensures
            final(self).wf(),
            exists|now: u128|
                now <= u128::MAX - UC_MESSAGE_TIMEOUT_MS && spec_msg_step(
                    old(self)@,
                    *lbp_message,
                    now,
                    final(self)@,
                    r,
                ),
    {
        let now = elapsed_ms(&self.start_time);
        self.process_msg_at(lbp_message, now)
    }
}


/// A joining message without data always (re)starts the authentication: the
/// answer is an LBP challenge to the device carrying the first EAP-PSK
/// message with the current EAP identifier, the drawn RandS and the server
/// identity; the device then waits for the confirm of that message, with
/// the keys derived from the pre-shared key.
pub proof fn lemma_join_restarts(m: LbpManagerView, addr: Seq<u8>, rand: Seq<u8>)
    requires
        devices_wf(m.devices),
        m.devices.len() < 0xFFFF,
        addr.len() == 8,
    ensures
        ({
            let (n, out) = spec_joined(m, addr, Seq::empty(), rand);
            let i = device_index(m.devices, addr);
            let msg1 = spec_eap_msg1(m.eap_identifier, rand, m.id_s);
            &&& out == Some(spec_lbp_frame(LbpMessageType::LBP_CHALLENGE, addr, msg1))
            &&& n.devices[i].state == DeviceState::BS_STATE_SENT_EAP_MSG_1
            &&& n.devices[i].rand_s == rand
            &&& n.devices[i].data == Some(msg1)
            &&& n.devices[i].ak == spec_psk_ak(m.psk)
            &&& n.devices[i].kdk == spec_psk_kdk(m.psk)
            &&& n.eap_identifier == m.eap_identifier.wrapping_add(1)
        }),
{
    lemma_with_device(m.devices, addr);
}

/// No joining message makes the server forget a device or change the
/// addresses of one: the devices it knew keep their places, extended and
/// short addresses, a new device comes last with the next short address, and
/// the slots stay well formed.
pub proof fn lemma_join_keeps_devices(m: LbpManagerView, addr: Seq<u8>, bd: Seq<u8>, rand: Seq<u8>)
    requires
        devices_wf(m.devices),
        m.devices.len() < 0xFFFF,
        addr.len() == 8,
    ensures
        ({
            let (n, out) = spec_joined(m, addr, bd, rand);
            &&& devices_wf(n.devices)
            &&& n.devices.len() >= m.devices.len()
            &&& forall|k: int|
                0 <= k < m.devices.len() ==> (#[trigger] n.devices[k]).addr == m.devices[k].addr
                    && n.devices[k].short_addr == m.devices[k].short_addr
            &&& n.devices.len() > m.devices.len() ==> n.devices.len() == m.devices.len() + 1
                && n.devices[m.devices.len() as int].addr == addr
                && n.devices[m.devices.len() as int].short_addr == m.devices.len() + 1
        }),
{
    lemma_with_device(m.devices, addr);
    let devs = with_device(m.devices, addr);
    let i = device_index(m.devices, addr);
    let m1 = LbpManagerView { devices: devs, ..m };
    let (d2, ident, nonce, out) = spec_join_slot(m1, devs[i], bd, rand);
    assert(d2.addr == devs[i].addr && d2.short_addr == devs[i].short_addr);
    lemma_wf_update(devs, i, d2);
}

/// A confirm never makes the server forget a device or change the addresses
/// of one, and keeps the slots well formed.
pub proof fn lemma_confirm_keeps_devices(m: LbpManagerView, resp: LbpReponse, now: u128)
    requires
        devices_wf(m.devices),
    ensures
        ({
            let n = spec_confirmed(m, resp, now);
            &&& devices_wf(n.devices)
            &&& n.devices.len() == m.devices.len()
            &&& forall|k: int|
                0 <= k < m.devices.len() ==> (#[trigger] n.devices[k]).addr == m.devices[k].addr
                    && n.devices[k].short_addr == m.devices[k].short_addr
        }),
{
    let n = spec_confirmed(m, resp, now);
    assert forall|a: int, b: int| 0 <= a < b < n.devices.len() implies (#[trigger] n.devices[a]).addr
        != (#[trigger] n.devices[b]).addr by {
        assert(m.devices[a].addr != m.devices[b].addr);
    }
    assert forall|a: int| 0 <= a < n.devices.len() implies (#[trigger] n.devices[a]).short_addr == a
        + 1 by {
        assert(m.devices[a].short_addr == a + 1);
    }
    assert forall|a: int| 0 <= a < n.devices.len() implies (#[trigger] n.devices[a]).addr.len()
        == 8 by {
        assert(m.devices[a].addr.len() == 8);
    }
}

/// The confirm of the first EAP-PSK message, received while the device waits
/// for it with that one request pending, makes the device wait for the
/// second message and starts its timeout.
pub proof fn lemma_confirm_msg1(d: DeviceSlotView, resp: LbpReponse, now: u128)
    requires
        d.state == DeviceState::BS_STATE_SENT_EAP_MSG_1,
        d.pending_confirms == 1,
        resp.handle == d.tx_handle,
        resp.status == EAdpStatus::G3_SUCCESS,
        now <= u128::MAX - UC_MESSAGE_TIMEOUT_MS,
    ensures
        spec_confirm(d, resp, now).state == DeviceState::BS_STATE_WAITING_EAP_MSG_2,
        spec_confirm(d, resp, now).pending_confirms == 0,
        spec_confirm(d, resp, now).timeout == now + UC_MESSAGE_TIMEOUT_MS,
{
}

/// The confirm of the message 3 in flight: a device that was sent EAP-PSK
/// message 3 with that request as its only one pending then waits for
/// message 4 (after a success) or for a new joining message (after a
/// failure), with no confirm pending and its timeout restarted; its
/// addresses, keys and data stay, and so do the server's own fields.
pub proof fn lemma_confirm_msg3(m: LbpManagerView, k: int, resp: LbpReponse, now: u128)
    requires
        0 <= k < m.devices.len(),
        m.devices[k].state == DeviceState::BS_STATE_SENT_EAP_MSG_3,
        m.devices[k].pending_confirms == 1,
        resp.handle == m.devices[k].tx_handle,
        now <= u128::MAX - UC_MESSAGE_TIMEOUT_MS,
    ensures
        ({
            let n = spec_confirmed(m, resp, now);
            let d = m.devices[k];
            let e = n.devices[k];
            &&& e.state == if resp.status == EAdpStatus::G3_SUCCESS {
                DeviceState::BS_STATE_WAITING_EAP_MSG_4
            } else {
                DeviceState::BS_STATE_WAITING_JOINNING
            }
            &&& e.pending_confirms == 0
            &&& e.timeout == now + UC_MESSAGE_TIMEOUT_MS
            &&& e.addr == d.addr && e.short_addr == d.short_addr && e.rand_s == d.rand_s
            &&& e.tx_handle == d.tx_handle && e.data == d.data
            &&& e.ak == d.ak && e.kdk == d.kdk && e.tek == d.tek
            &&& n.devices.len() == m.devices.len()
            &&& n.eap_identifier == m.eap_identifier && n.nsdu_handle == m.nsdu_handle
            &&& n.gmk == m.gmk && n.psk == m.psk
        }),
{
}

} // verus!
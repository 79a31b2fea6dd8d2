//! Writes the G3 parameters of the coordinator or of a modem, one command per
//! confirm.
use vstd::prelude::*;

use std::collections::VecDeque;

use super::{is_quiet, quiet, send_one, Context, Message, Response, State, Step};
use crate::adp;
use crate::adp::{
    spec_e_adp_pib_attribute_from, spec_e_adp_pib_attribute_value,
    spec_e_mac_wrp_pib_attribute_from, spec_e_mac_wrp_pib_attribute_value, EAdpPibAttribute,
    EMacWrpPibAttribute,
};
use crate::app_config;
use crate::app_config::{be2, G3ParamType};
use crate::request::{is_adp_message, spec_set_request, AdpMacSetRequest, AdpSetRequest};
use crate::usi::OutMessage;

verus! {

/// A parameter as plain values.
pub open spec fn param_view(p: app_config::G3Param) -> (G3ParamType, u32, u16, Seq<u8>) {
    (p.0, p.1, p.2, p.3@)
}

pub open spec fn mac_attr(a: EMacWrpPibAttribute) -> u32 {
    spec_e_mac_wrp_pib_attribute_value(a)
}

pub open spec fn adp_attr(a: EAdpPibAttribute) -> u32 {
    spec_e_adp_pib_attribute_value(a)
}

/// The parameters of the coordinator: PAN identifier and GMK (MAC), security
/// level 5, key index 0, join wait time, hop limit, pre-shared key, the two
/// context information tables, route lifetime, coordinator short address 0
/// (ADP), and MAC short address 0.
pub open spec fn spec_coord_params(g3: app_config::G3) -> Seq<(G3ParamType, u32, u16, Seq<u8>)> {
    seq![
        (G3ParamType::Mac, mac_attr(EMacWrpPibAttribute::MAC_WRP_PIB_PAN_ID), 0u16, be2(g3.pan_id)),
        (G3ParamType::Mac, mac_attr(EMacWrpPibAttribute::MAC_WRP_PIB_KEY_TABLE), 0u16, g3.gmk@),
        (G3ParamType::Adp, adp_attr(EAdpPibAttribute::ADP_IB_SECURITY_LEVEL), 0u16, seq![0x05u8]),
        (G3ParamType::Adp, adp_attr(EAdpPibAttribute::ADP_IB_ACTIVE_KEY_INDEX), 0u16, seq![0x00u8]),
        (
            G3ParamType::Adp,
            adp_attr(EAdpPibAttribute::ADP_IB_MAX_JOIN_WAIT_TIME),
            0u16,
            seq![0x10u8, 0x00u8],
        ),
        (G3ParamType::Adp, adp_attr(EAdpPibAttribute::ADP_IB_MAX_HOPS), 0u16, seq![g3.max_hops]),
        (
            G3ParamType::Adp,
            adp_attr(EAdpPibAttribute::ADP_IB_MANUF_EAP_PRESHARED_KEY),
            0u16,
            g3.psk@,
        ),
        (
            G3ParamType::Adp,
            adp_attr(EAdpPibAttribute::ADP_IB_CONTEXT_INFORMATION_TABLE),
            0u16,
            g3.context_information_table_0@,
        ),
        (
            G3ParamType::Adp,
            adp_attr(EAdpPibAttribute::ADP_IB_CONTEXT_INFORMATION_TABLE),
            1u16,
            g3.context_information_table_1@,
        ),
        (
            G3ParamType::Adp,
            adp_attr(EAdpPibAttribute::ADP_IB_ROUTING_TABLE_ENTRY_TTL),
            0u16,
            seq![0xB4u8, 0x00u8],
        ),
        (
            G3ParamType::Adp,
            adp_attr(EAdpPibAttribute::ADP_IB_COORD_SHORT_ADDRESS),
            0u16,
            seq![0x00u8, 0x00u8],
        ),
        (
            G3ParamType::Mac,
            mac_attr(EMacWrpPibAttribute::MAC_WRP_PIB_SHORT_ADDRESS),
            0u16,
            seq![0x00u8, 0x00u8],
        ),
    ]
}

/// The parameters of a modem: PAN identifier (MAC), security level 5, join
/// wait time, hop limit, pre-shared key, the two context information tables
/// and route lifetime (ADP).
pub open spec fn spec_modem_params(g3: app_config::G3) -> Seq<(G3ParamType, u32, u16, Seq<u8>)> {
    seq![
        (G3ParamType::Mac, mac_attr(EMacWrpPibAttribute::MAC_WRP_PIB_PAN_ID), 0u16, be2(g3.pan_id)),
        (G3ParamType::Adp, adp_attr(EAdpPibAttribute::ADP_IB_SECURITY_LEVEL), 0u16, seq![0x05u8]),
        (
            G3ParamType::Adp,
            adp_attr(EAdpPibAttribute::ADP_IB_MAX_JOIN_WAIT_TIME),
            0u16,
            seq![0x10u8, 0x00u8],
        ),
        (G3ParamType::Adp, adp_attr(EAdpPibAttribute::ADP_IB_MAX_HOPS), 0u16, seq![g3.max_hops]),
        (
            G3ParamType::Adp,
            adp_attr(EAdpPibAttribute::ADP_IB_MANUF_EAP_PRESHARED_KEY),
            0u16,
            g3.psk@,
        ),
        (
            G3ParamType::Adp,
            adp_attr(EAdpPibAttribute::ADP_IB_CONTEXT_INFORMATION_TABLE),
            0u16,
            g3.context_information_table_0@,
        ),
        (
            G3ParamType::Adp,
            adp_attr(EAdpPibAttribute::ADP_IB_CONTEXT_INFORMATION_TABLE),
            1u16,
            g3.context_information_table_1@,
        ),
        (
            G3ParamType::Adp,
            adp_attr(EAdpPibAttribute::ADP_IB_ROUTING_TABLE_ENTRY_TTL),
            0u16,
            seq![0xB4u8, 0x00u8],
        ),
    ]
}

/// Whether a parameter's attribute names one of its layer.
pub open spec fn param_valid(p: (G3ParamType, u32, u16, Seq<u8>)) -> bool {
    match p.0 {
        G3ParamType::Mac => spec_e_mac_wrp_pib_attribute_from(p.1) is Some,
        G3ParamType::Adp => spec_e_adp_pib_attribute_from(p.1) is Some,
    }
}

/// The set request (MAC or ADP, by the layer) that writes a parameter.
pub open spec fn spec_param_request(p: (G3ParamType, u32, u16, Seq<u8>)) -> Seq<u8> {
    match p.0 {
        G3ParamType::Mac => spec_set_request(adp::G3_SERIAL_MSG_ADP_MAC_SET_REQUEST, p.1, p.2, p.3),
        G3ParamType::Adp => spec_set_request(adp::G3_SERIAL_MSG_ADP_SET_REQUEST, p.1, p.2, p.3),
    }
}

pub struct SetParams {
    pub params: Option<VecDeque<app_config::G3Param>>,
}

fn param(
    t: G3ParamType,
    id: u32,
    idx: u16,
    v: Vec<u8>,
    q: &mut VecDeque<app_config::G3Param>,
)
    ensures
        final(q)@.map_values(|p: app_config::G3Param| param_view(p)) == old(q)@.map_values(
            |p: app_config::G3Param| param_view(p),
        ).push((t, id, idx, v@)),
{
    q.push_back((t, id, idx, v));
    assert(q@.map_values(|p: app_config::G3Param| param_view(p)) =~= old(q)@.map_values(
        |p: app_config::G3Param| param_view(p),
    ).push((t, id, idx, v@)));
}

fn u16_be(x: u16) -> (r: Vec<u8>)
    ensures
        r@ == be2(x),
{
    let hi = (x >> 8u16) as u8;
    let lo = (x & 0xFF) as u8;
    assert(hi == x / 256 && lo == x % 256) by (bit_vector)
        requires
            hi == (x >> 8u16) as u8,
            lo == (x & 0xFFu16) as u8,
    ;
    let r = vec![hi, lo];
    assert(r@ =~= be2(x));
    r
}

fn one(a: u8) -> (r: Vec<u8>)
    ensures
        r@ == seq![a],
{
    let r = vec![a];
    assert(r@ =~= seq![a]);
    r
}

fn two(a: u8, b: u8) -> (r: Vec<u8>)
    ensures
        r@ == seq![a, b],
{
    let r = vec![a, b];
    assert(r@ =~= seq![a, b]);
    r
}

fn copy(v: &[u8]) -> (r: Vec<u8>)
    ensures
        r@ == v@,
{
    vstd::slice::slice_to_vec(v)
}

impl SetParams {
    pub open spec fn params_view(&self) -> Option<Seq<(G3ParamType, u32, u16, Seq<u8>)>> {
        match self.params {
            Some(q) => Some(q@.map_values(|p: app_config::G3Param| param_view(p))),
            None => None,
        }
    }

    /// Whether every parameter left names an attribute of its layer.
    pub open spec fn wf(&self) -> bool {
        self.params_view() matches Some(s) ==> forall|i: int|
            0 <= i < s.len() ==> param_valid(#[trigger] s[i])
    }

    pub fn new() -> (r: Self)
        ensures
            r.params is None,
            r.wf(),
    {
        SetParams { params: None }
    }

    /// The parameters to write, by the role.
    fn init_params(&mut self, context: &Context)
        ensures
            final(self).params_view() == Some(
                if context.is_coordinator {
                    spec_coord_params(context.settings.g3)
                } else {
                    spec_modem_params(context.settings.g3)
                },
            ),
            final(self).wf(),
    {
        let g3 = &context.settings.g3;
        let mut q: VecDeque<app_config::G3Param> = VecDeque::new();
        assert(q@.map_values(|p: app_config::G3Param| param_view(p)) =~= Seq::empty());
        let pan = u16_be(g3.pan_id);
        if context.is_coordinator {
            param(G3ParamType::Mac, EMacWrpPibAttribute::MAC_WRP_PIB_PAN_ID.into_primitive(), 0, pan, &mut q);
            param(G3ParamType::Mac, EMacWrpPibAttribute::MAC_WRP_PIB_KEY_TABLE.into_primitive(), 0, copy(g3.gmk.as_slice()), &mut q);
            param(G3ParamType::Adp, EAdpPibAttribute::ADP_IB_SECURITY_LEVEL.into_primitive(), 0, one(0x05), &mut q);
            param(G3ParamType::Adp, EAdpPibAttribute::ADP_IB_ACTIVE_KEY_INDEX.into_primitive(), 0, one(0x00), &mut q);
            param(G3ParamType::Adp, EAdpPibAttribute::ADP_IB_MAX_JOIN_WAIT_TIME.into_primitive(), 0, two(0x10, 0x00), &mut q);
            param(G3ParamType::Adp, EAdpPibAttribute::ADP_IB_MAX_HOPS.into_primitive(), 0, one(g3.max_hops), &mut q);
            param(G3ParamType::Adp, EAdpPibAttribute::ADP_IB_MANUF_EAP_PRESHARED_KEY.into_primitive(), 0, copy(&g3.psk), &mut q);
            param(G3ParamType::Adp, EAdpPibAttribute::ADP_IB_CONTEXT_INFORMATION_TABLE.into_primitive(), 0, copy(g3.context_information_table_0.as_slice()), &mut q);
            param(G3ParamType::Adp, EAdpPibAttribute::ADP_IB_CONTEXT_INFORMATION_TABLE.into_primitive(), 1, copy(g3.context_information_table_1.as_slice()), &mut q);
            param(G3ParamType::Adp, EAdpPibAttribute::ADP_IB_ROUTING_TABLE_ENTRY_TTL.into_primitive(), 0, two(0xB4, 0x00), &mut q);
            param(G3ParamType::Adp, EAdpPibAttribute::ADP_IB_COORD_SHORT_ADDRESS.into_primitive(), 0, two(0x00, 0x00), &mut q);
            param(G3ParamType::Mac, EMacWrpPibAttribute::MAC_WRP_PIB_SHORT_ADDRESS.into_primitive(), 0, two(0x00, 0x00), &mut q);
            assert(q@.map_values(|p: app_config::G3Param| param_view(p)) =~= spec_coord_params(*g3));
        } else {
            param(G3ParamType::Mac, EMacWrpPibAttribute::MAC_WRP_PIB_PAN_ID.into_primitive(), 0, pan, &mut q);
            param(G3ParamType::Adp, EAdpPibAttribute::ADP_IB_SECURITY_LEVEL.into_primitive(), 0, one(0x05), &mut q);
            param(G3ParamType::Adp, EAdpPibAttribute::ADP_IB_MAX_JOIN_WAIT_TIME.into_primitive(), 0, two(0x10, 0x00), &mut q);
            param(G3ParamType::Adp, EAdpPibAttribute::ADP_IB_MAX_HOPS.into_primitive(), 0, one(g3.max_hops), &mut q);
            param(G3ParamType::Adp, EAdpPibAttribute::ADP_IB_MANUF_EAP_PRESHARED_KEY.into_primitive(), 0, copy(&g3.psk), &mut q);
            param(G3ParamType::Adp, EAdpPibAttribute::ADP_IB_CONTEXT_INFORMATION_TABLE.into_primitive(), 0, copy(g3.context_information_table_0.as_slice()), &mut q);
            param(G3ParamType::Adp, EAdpPibAttribute::ADP_IB_CONTEXT_INFORMATION_TABLE.into_primitive(), 1, copy(g3.context_information_table_1.as_slice()), &mut q);
            param(G3ParamType::Adp, EAdpPibAttribute::ADP_IB_ROUTING_TABLE_ENTRY_TTL.into_primitive(), 0, two(0xB4, 0x00), &mut q);
            assert(q@.map_values(|p: app_config::G3Param| param_view(p)) =~= spec_modem_params(*g3));
        }
        self.params = Some(q);
        proof {
            adp::lemma_e_mac_wrp_pib_attribute_roundtrip(EMacWrpPibAttribute::MAC_WRP_PIB_PAN_ID);
            adp::lemma_e_mac_wrp_pib_attribute_roundtrip(EMacWrpPibAttribute::MAC_WRP_PIB_KEY_TABLE);
            adp::lemma_e_mac_wrp_pib_attribute_roundtrip(EMacWrpPibAttribute::MAC_WRP_PIB_SHORT_ADDRESS);
            adp::lemma_e_adp_pib_attribute_roundtrip(EAdpPibAttribute::ADP_IB_SECURITY_LEVEL);
            adp::lemma_e_adp_pib_attribute_roundtrip(EAdpPibAttribute::ADP_IB_ACTIVE_KEY_INDEX);
            adp::lemma_e_adp_pib_attribute_roundtrip(EAdpPibAttribute::ADP_IB_MAX_JOIN_WAIT_TIME);
            adp::lemma_e_adp_pib_attribute_roundtrip(EAdpPibAttribute::ADP_IB_MAX_HOPS);
            adp::lemma_e_adp_pib_attribute_roundtrip(EAdpPibAttribute::ADP_IB_MANUF_EAP_PRESHARED_KEY);
            adp::lemma_e_adp_pib_attribute_roundtrip(EAdpPibAttribute::ADP_IB_CONTEXT_INFORMATION_TABLE);
            adp::lemma_e_adp_pib_attribute_roundtrip(EAdpPibAttribute::ADP_IB_ROUTING_TABLE_ENTRY_TTL);
            adp::lemma_e_adp_pib_attribute_roundtrip(EAdpPibAttribute::ADP_IB_COORD_SHORT_ADDRESS);
        }
    }

    /// The set request that writes `param`, whose attribute must name one of
    /// the parameter's layer.
    fn set_param(&self, param: &app_config::G3Param) -> (r: OutMessage)
        requires
            param_valid(param_view(*param)),
        ensures
            is_adp_message(r, spec_param_request(param_view(*param))),
    {
        proof {
            adp::lemma_e_mac_wrp_pib_attribute_from_value(param.1);
            adp::lemma_e_adp_pib_attribute_from_value(param.1);
        }
        if param.0 == G3ParamType::Mac {
            match EMacWrpPibAttribute::try_from_primitive(param.1) {
                Some(a) => AdpMacSetRequest::new(a, param.2, &param.3).into(),
                None => OutMessage::new(0, &Vec::new()),
            }
        } else {
            match EAdpPibAttribute::try_from_primitive(param.1) {
                Some(a) => AdpSetRequest::new(a, param.2, &param.3).into(),
                None => OutMessage::new(0, &Vec::new()),
            }
        }
    }

    /// Takes the next parameter off the list and makes its set request.
    fn send_next_param(&mut self) -> (r: Option<OutMessage>)
        requires
            old(self).wf(),
        ensures
            final(self).wf(),
            match old(self).params_view() {
                Some(s) if s.len() > 0 => {
                    &&& final(self).params_view() == Some(s.drop_first())
                    &&& r matches Some(m) && is_adp_message(m, spec_param_request(s[0]))
                },
                _ => final(self).params_view() == old(self).params_view() && r is None,
            },
    {
        let ghost s0 = self.params_view();
        let mut taken: Option<app_config::G3Param> = None;
        match &mut self.params {
            Some(params) => {
                taken = params.pop_front();
            },
            None => {},
        }
        proof {
            if s0 is Some {
                assert(self.params_view().unwrap() =~= if s0.unwrap().len() > 0 {
                    s0.unwrap().drop_first()
                } else {
                    s0.unwrap()
                });
                if s0.unwrap().len() > 0 {
                    assert(param_valid(s0.unwrap()[0]));
                    assert forall|i: int| 0 <= i < self.params_view().unwrap().len() implies param_valid(
                        #[trigger] self.params_view().unwrap()[i],
                    ) by {
                        assert(param_valid(s0.unwrap()[i + 1]));
                    }
                }
            }
        }
        match taken {
            Some(p) => Some(self.set_param(&p)),
            None => None,
        }
    }

    /// Makes the list of parameters and sends the first one.
    pub fn on_enter(&mut self, context: &mut Context) -> (r: Step)
        ensures
            final(self).wf(),
            *final(context) == *old(context),
            ({
                let s = if old(context).is_coordinator {
                    spec_coord_params(old(context).settings.g3)
                } else {
                    spec_modem_params(old(context).settings.g3)
                };
                &&& final(self).params_view() == Some(s.drop_first())
                &&& super::sends_one(r, spec_param_request(s[0]), Response::Handled, Response::Handled)
            }),
    {
        self.init_params(context);
        match self.send_next_param() {
            Some(m) => send_one(m, Response::Handled, Response::Handled),
            None => quiet(Response::Handled),
        }
    }

    /// Each confirm sends the next parameter; when none is left, or it could
    /// not be sent, the parameters are read back.
    pub fn on_event(&mut self, event: &Message, context: &mut Context) -> (r: Step)
        requires
            old(self).wf(),
        ensures
            final(self).wf(),
            *final(context) == *old(context),
            match old(self).params_view() {
                Some(s) if s.len() > 0 => {
                    &&& final(self).params_view() == Some(s.drop_first())
                    &&& super::sends_one(
                        r,
                        spec_param_request(s[0]),
                        Response::Handled,
                        Response::Transition(State::GetParams),
                    )
                },
                _ => {
                    &&& final(self).params_view() == old(self).params_view()
                    &&& is_quiet(r, Response::Transition(State::GetParams))
                },
            },
    {
        match self.send_next_param() {
            Some(m) => send_one(m, Response::Handled, Response::Transition(State::GetParams)),
            None => quiet(Response::Transition(State::GetParams)),
        }
    }
}

/// The first parameter a node writes, coordinator or modem alike, is the MAC
/// PAN identifier: its set request carries attribute 0x50, index 0, two value
/// bytes, and those bytes read big endian give back the configured PAN
/// identifier.
pub proof fn lemma_pan_id_written_big_endian(g3: app_config::G3)
    ensures
        spec_modem_params(g3)[0] == spec_coord_params(g3)[0],
        spec_param_request(spec_modem_params(g3)[0]) == seq![
            adp::G3_SERIAL_MSG_ADP_MAC_SET_REQUEST,
            0u8,
            0u8,
            0u8,
            0x50u8,
            0u8,
            0u8,
            2u8,
            (g3.pan_id / 256) as u8,
            (g3.pan_id % 256) as u8,
        ],
        spec_param_request(spec_modem_params(g3)[0])[8] as int * 256 + spec_param_request(
            spec_modem_params(g3)[0],
        )[9] as int == g3.pan_id as int,
{
    let r = spec_param_request(spec_modem_params(g3)[0]);
    assert(r =~= seq![
        adp::G3_SERIAL_MSG_ADP_MAC_SET_REQUEST,
        0u8,
        0u8,
        0u8,
        0x50u8,
        0u8,
        0u8,
        2u8,
        (g3.pan_id / 256) as u8,
        (g3.pan_id % 256) as u8,
    ]);
}

} // verus!

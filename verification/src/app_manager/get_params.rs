//! Reads the modem's extended address.
use vstd::prelude::*;

use super::{is_quiet, quiet, send_one, sends_one, Context, Message, Response, State, Step};
use crate::adp;
use crate::adp::{spec_e_mac_wrp_pib_attribute_value, EMacWrpPibAttribute, TExtendedAddress};
use crate::request::{be2_bytes, be4_bytes, AdpMacGetRequest};

verus! {

pub struct GetParams {}

/// Whether `event` is the confirm of the read of the extended address.
pub open spec fn is_ext_addr_confirm(event: Message) -> bool {
    event matches Message::Adp(adp::Message::AdpG3(adp::AdpG3::GetMacResponse(r)))
        && r.attribute_id == spec_e_mac_wrp_pib_attribute_value(
        EMacWrpPibAttribute::MAC_WRP_PIB_MANUF_EXTENDED_ADDRESS,
    )
}

/// The value carried by a MAC get confirm.
pub open spec fn confirm_value(event: Message) -> Seq<u8> {
    match event {
        Message::Adp(adp::Message::AdpG3(adp::AdpG3::GetMacResponse(r))) => r.attribute_val@,
        _ => Seq::empty(),
    }
}

fn reversed8(v: &Vec<u8>) -> (r: [u8; 8])
    requires
        v@.len() == 8,
    ensures
        r@ == v@.reverse(),
{
    let r: [u8; 8] = [v[7], v[6], v[5], v[4], v[3], v[2], v[1], v[0]];
    assert(r@ =~= v@.reverse());
    r
}

impl GetParams {
    pub fn new() -> (r: Self) {
        GetParams {  }
    }

    /// Reads the extended address.
    pub fn on_enter(&mut self, context: &mut Context) -> (r: Step)
        ensures
            sends_one(
                r,
                seq![adp::G3_SERIAL_MSG_ADP_MAC_GET_REQUEST] + be4_bytes(
                    spec_e_mac_wrp_pib_attribute_value(
                        EMacWrpPibAttribute::MAC_WRP_PIB_MANUF_EXTENDED_ADDRESS,
                    ),
                ) + be2_bytes(0),
                Response::Handled,
                Response::Handled,
            ),
            *final(context) == *old(context),
    {
        let request = AdpMacGetRequest::new(
            EMacWrpPibAttribute::MAC_WRP_PIB_MANUF_EXTENDED_ADDRESS,
            0,
        );
        send_one(request.into(), Response::Handled, Response::Handled)
    }

    /// The confirm of a MAC read leads to starting the network (coordinator)
    /// or discovering one (modem); when it carries the extended address, that
    /// address (sent least significant byte first) is kept; it must have
    /// eight bytes.
    pub fn on_event(&mut self, event: &Message, context: &mut Context) -> (r: Step)
        requires
            is_ext_addr_confirm(*event) ==> confirm_value(*event).len() == 8,
        ensures
            final(context).is_coordinator == old(context).is_coordinator,
            final(context).settings == old(context).settings,
            final(context).pan_descriptors == old(context).pan_descriptors,
            is_ext_addr_confirm(*event) ==> (final(context).extended_addr matches Some(a) && a.0@
                == confirm_value(*event).reverse()),
            !is_ext_addr_confirm(*event) ==> final(context).extended_addr == old(
                context,
            ).extended_addr,
            is_quiet(
                r,
                if event matches Message::Adp(
                    adp::Message::AdpG3(adp::AdpG3::GetMacResponse(_)),
                ) {
                    if old(context).is_coordinator {
                        Response::Transition(State::StartNetwork)
                    } else {
                        Response::Transition(State::DiscoverNetwork)
                    }
                } else {
                    Response::Handled
                },
            ),
    {
        match event {
            Message::Adp(adp::Message::AdpG3(adp::AdpG3::GetMacResponse(mac_get_response))) => {
                proof {
                    adp::lemma_e_mac_wrp_pib_attribute_from_value(mac_get_response.attribute_id);
                }
                match EMacWrpPibAttribute::try_from_primitive(mac_get_response.attribute_id) {
                    Some(EMacWrpPibAttribute::MAC_WRP_PIB_MANUF_EXTENDED_ADDRESS) => {
                        let v = reversed8(&mac_get_response.attribute_val);
                        context.extended_addr = Some(TExtendedAddress(v));
                    },
                    _ => {},
                }
                if context.is_coordinator {
                    quiet(Response::Transition(State::StartNetwork))
                } else {
                    quiet(Response::Transition(State::DiscoverNetwork))
                }
            },
            _ => quiet(Response::Handled),
        }
    }
}

} // verus!

//! Gives the coordinator short address 0.
use vstd::prelude::*;

use super::{is_quiet, quiet, send_one, sends_one, Context, Message, Response, State, Step};
use crate::adp;
use crate::adp::{spec_e_mac_wrp_pib_attribute_value, EMacWrpPibAttribute};
use crate::request::{be2_bytes, spec_set_request, AdpMacSetRequest};

verus! {

pub struct SetCoordShortAddr {}

impl SetCoordShortAddr {
    /// Sets the MAC short address to 0.
    pub fn on_enter(&mut self, context: &mut Context) -> (r: Step)
        ensures
            sends_one(
                r,
                spec_set_request(
                    adp::G3_SERIAL_MSG_ADP_MAC_SET_REQUEST,
                    spec_e_mac_wrp_pib_attribute_value(
                        EMacWrpPibAttribute::MAC_WRP_PIB_SHORT_ADDRESS,
                    ),
                    0,
                    be2_bytes(0),
                ),
                Response::Handled,
                Response::Handled,
            ),
            *final(context) == *old(context),
    {
        let short_addr = 0u16;
        let v: Vec<u8> = vec![0u8, 0u8];
        assert(v@ =~= be2_bytes(short_addr as int));
        let cmd = AdpMacSetRequest::new(EMacWrpPibAttribute::MAC_WRP_PIB_SHORT_ADDRESS, 0, &v);
        send_one(cmd.into(), Response::Handled, Response::Handled)
    }

    /// The confirm of the MAC set leads to the stack's initialization.
    pub fn on_event(&mut self, event: &Message, context: &mut Context) -> (r: Step)
        ensures
            is_quiet(
                r,
                if event matches Message::Adp(adp::Message::AdpG3(adp::AdpG3::SetMacResponse(_))) {
                    Response::Transition(State::StackInitialize)
                } else {
                    Response::Handled
                },
            ),
            *final(context) == *old(context),
    {
        match event {
            Message::Adp(adp::Message::AdpG3(adp::AdpG3::SetMacResponse(_))) => quiet(
                Response::Transition(State::StackInitialize),
            ),
            _ => quiet(Response::Handled),
        }
    }
}

} // verus!

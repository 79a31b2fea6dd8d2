//! Starts the network (coordinator).
use vstd::prelude::*;

use super::{is_quiet, quiet, send_one, sends_one, Context, Message, Response, State, Step};
use crate::adp;
use crate::adp::EAdpStatus;
use crate::request::{be2_bytes, AdpNetworkStartRequest};

verus! {

pub struct StartNetwork {}

/// Whether `event` is a successful confirm of the network start.
pub open spec fn is_started(event: Message) -> bool {
    event matches Message::Adp(adp::Message::AdpG3(adp::AdpG3::NetworkStartResponse(r)))
        && r.status == EAdpStatus::G3_SUCCESS
}

impl StartNetwork {
    pub fn new() -> (r: Self) {
        StartNetwork {  }
    }

    /// Starts the network with the configured PAN identifier.
    pub fn on_enter(&mut self, context: &mut Context) -> (r: Step)
        ensures
            sends_one(
                r,
                seq![adp::G3_SERIAL_MSG_ADP_NETWORK_START_REQUEST] + be2_bytes(
                    old(context).settings.g3.pan_id as int,
                ),
                Response::Handled,
                Response::Handled,
            ),
            *final(context) == *old(context),
    {
        let cmd = AdpNetworkStartRequest::new(context.settings.g3.pan_id);
        send_one(cmd.into(), Response::Handled, Response::Handled)
    }

    /// A successful start leads back to idle.
    pub fn on_event(&mut self, event: &Message, context: &mut Context) -> (r: Step)
        ensures
            is_quiet(
                r,
                if is_started(*event) {
                    Response::Transition(State::Idle)
                } else {
                    Response::Handled
                },
            ),
            *final(context) == *old(context),
    {
        match event {
            Message::Adp(adp::Message::AdpG3(adp::AdpG3::NetworkStartResponse(response))) => {
                if response.status == EAdpStatus::G3_SUCCESS {
                    return quiet(Response::Transition(State::Idle));
                }
            },
            _ => {},
        }
        quiet(Response::Handled)
    }
}

} // verus!

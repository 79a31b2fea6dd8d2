//! Initializes the ADP layer of the modem for the configured band.
use vstd::prelude::*;

use super::{is_quiet, quiet, send_one, sends_one, Context, Message, Response, State, Step};
use crate::adp;
use crate::adp::TAdpBand;
use crate::request::AdpInitializeRequest;

verus! {

pub struct StackInitialize {}

impl StackInitialize {
    pub fn new() -> (r: Self) {
        StackInitialize {  }
    }

    /// Sends the initialization for the band; back to idle if it cannot be
    /// sent. The band setting must name a band (0 to 3).
    pub fn on_enter(&mut self, context: &mut Context) -> (r: Step)
        requires
            old(context).settings.g3.band <= 3,
        ensures
            sends_one(
                r,
                seq![adp::G3_SERIAL_MSG_ADP_INITIALIZE, old(context).settings.g3.band],
                Response::Handled,
                Response::Transition(State::Idle),
            ),
            *final(context) == *old(context),
    {
        proof {
            adp::lemma_t_adp_band_from_value(context.settings.g3.band);
        }
        match TAdpBand::try_from_primitive(context.settings.g3.band) {
            Some(band) => {
                let request = AdpInitializeRequest::from_band(&band);
                send_one(request.into(), Response::Handled, Response::Transition(State::Idle))
            },
            None => quiet(Response::Handled),
        }
    }

    /// The modem's status response leads to setting the parameters.
    pub fn on_event(&mut self, event: &Message, context: &mut Context) -> (r: Step)
        ensures
            is_quiet(
                r,
                if event matches Message::Adp(
                    adp::Message::AdpG3(adp::AdpG3::MsgStatusResponse(_)),
                ) {
                    Response::Transition(State::SetParams)
                } else {
                    Response::Handled
                },
            ),
            *final(context) == *old(context),
    {
        match event {
            Message::Adp(adp::Message::AdpG3(adp::AdpG3::MsgStatusResponse(_))) => quiet(
                Response::Transition(State::SetParams),
            ),
            _ => quiet(Response::Handled),
        }
    }
}

} // verus!

//! Scans for networks (modem) and keeps what it finds.
use vstd::prelude::*;

use super::{is_quiet, quiet, send_one, sends_one, Context, Message, Response, State, Step};
use crate::adp;
use crate::adp::EAdpStatus;
use crate::request::AdpDiscoveryRequest;

verus! {

pub struct DiscoverNetwork {}

impl DiscoverNetwork {
    /// Scans for the configured number of seconds.
    pub fn on_enter(&mut self, context: &mut Context) -> (r: Step)
        ensures
            sends_one(
                r,
                seq![
                    adp::G3_SERIAL_MSG_ADP_DISCOVERY_REQUEST,
                    old(context).settings.g3.discovery_timeout_secs,
                ],
                Response::Handled,
                Response::Handled,
            ),
            *final(context) == *old(context),
    {
        let cmd = AdpDiscoveryRequest::new(context.settings.g3.discovery_timeout_secs);
        send_one(cmd.into(), Response::Handled, Response::Handled)
    }

    /// Each network found is kept; the end of the scan leads to joining, or
    /// to the failed state when the scan failed.
    pub fn on_event(&mut self, event: &Message, context: &mut Context) -> (r: Step)
        ensures
            final(context).is_coordinator == old(context).is_coordinator,
            final(context).extended_addr == old(context).extended_addr,
            final(context).settings == old(context).settings,
            match *event {
                Message::Adp(adp::Message::AdpG3(adp::AdpG3::DiscoveryResponse(d))) => {
                    &&& final(context).pan_descriptors == old(context).pan_descriptors
                    &&& is_quiet(
                        r,
                        if d.status != EAdpStatus::G3_SUCCESS {
                            Response::Transition(State::NetworkDiscoverFailed)
                        } else {
                            Response::Transition(State::JoinNetwork)
                        },
                    )
                },
                Message::Adp(adp::Message::AdpG3(adp::AdpG3::DiscoveryEvent(e))) => {
                    &&& final(context).pan_descriptors@ == old(context).pan_descriptors@.push(
                        e.pan_descriptor,
                    )
                    &&& is_quiet(r, Response::Handled)
                },
                _ => {
                    &&& final(context).pan_descriptors == old(context).pan_descriptors
                    &&& is_quiet(r, Response::Handled)
                },
            },
    {
        match event {
            Message::Adp(adp::Message::AdpG3(adp::AdpG3::DiscoveryResponse(response))) => {
                if response.status != EAdpStatus::G3_SUCCESS {
                    quiet(Response::Transition(State::NetworkDiscoverFailed))
                } else {
                    quiet(Response::Transition(State::JoinNetwork))
                }
            },
            Message::Adp(adp::Message::AdpG3(adp::AdpG3::DiscoveryEvent(discovery_event))) => {
                context.pan_descriptors.push(discovery_event.pan_descriptor);
                quiet(Response::Handled)
            },
            _ => quiet(Response::Handled),
        }
    }
}

} // verus!

//! Joins a discovered network (modem).
use vstd::prelude::*;

use super::{is_quiet, quiet, send_one, sends_one, Context, Message, Response, State, Step};
use crate::adp;
use crate::adp::EAdpStatus;
use crate::request::{be2_bytes, AdpJoinNetworkRequest};

verus! {

pub struct JoinNetwork {}

/// The answer to a join confirm: idle once joined, the failed state after a
/// timeout.
pub open spec fn join_response(event: Message) -> Response {
    match event {
        Message::Adp(adp::Message::AdpG3(adp::AdpG3::NetworkJoinResponse(r))) => {
            if r.status == EAdpStatus::G3_SUCCESS {
                Response::Transition(State::Idle)
            } else if r.status == EAdpStatus::G3_TIMEOUT {
                Response::Transition(State::JoinNetworkFailed)
            } else {
                Response::Handled
            }
        },
        _ => Response::Handled,
    }
}

impl JoinNetwork {
    pub fn new() -> (r: Self) {
        JoinNetwork {  }
    }

    /// Joins the first network discovered, through its LBA; without one,
    /// nothing is sent.
    pub fn on_enter(&mut self, context: &mut Context) -> (r: Step)
        ensures
            *final(context) == *old(context),
            old(context).pan_descriptors@.len() == 0 ==> is_quiet(r, Response::Handled),
            old(context).pan_descriptors@.len() > 0 ==> sends_one(
                r,
                seq![adp::G3_SERIAL_MSG_ADP_NETWORK_JOIN_REQUEST] + be2_bytes(
                    old(context).pan_descriptors@[0].pan_id as int,
                ) + be2_bytes(old(context).pan_descriptors@[0].lba_address as int),
                Response::Handled,
                Response::Handled,
            ),
    {
        if context.pan_descriptors.len() > 0 {
            let pan_descriptor = &context.pan_descriptors[0];
            let cmd = AdpJoinNetworkRequest {
                pan_id: pan_descriptor.pan_id,
                lba_address: pan_descriptor.lba_address,
            };
            send_one(cmd.into(), Response::Handled, Response::Handled)
        } else {
            quiet(Response::Handled)
        }
    }

    pub fn on_event(&mut self, event: &Message, context: &mut Context) -> (r: Step)
        ensures
            is_quiet(r, join_response(*event)),
            *final(context) == *old(context),
    {
        match event {
            Message::Adp(adp::Message::AdpG3(adp::AdpG3::NetworkJoinResponse(response))) => {
                if response.status == EAdpStatus::G3_SUCCESS {
                    return quiet(Response::Transition(State::Idle));
                } else if response.status == EAdpStatus::G3_TIMEOUT {
                    return quiet(Response::Transition(State::JoinNetworkFailed));
                }
            },
            _ => {},
        }
        quiet(Response::Handled)
    }
}

} // verus!

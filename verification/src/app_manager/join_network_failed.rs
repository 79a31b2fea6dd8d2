//! After a failed join: tries again on the next heartbeat.
use vstd::prelude::*;

use super::{is_quiet, quiet, Context, Message, Response, State, Step};

verus! {

pub struct JoinNetworkFailed {}

impl JoinNetworkFailed {
    pub fn on_enter(&mut self, context: &mut Context) -> (r: Step)
        ensures
            is_quiet(r, Response::Handled),
            *final(context) == *old(context),
    {
        quiet(Response::Handled)
    }

    pub fn on_event(&mut self, event: &Message, context: &mut Context) -> (r: Step)
        ensures
            is_quiet(
                r,
                if event is HeartBeat {
                    Response::Transition(State::JoinNetwork)
                } else {
                    Response::Handled
                },
            ),
            *final(context) == *old(context),
    {
        match event {
            Message::HeartBeat(_) => quiet(Response::Transition(State::JoinNetwork)),
            _ => quiet(Response::Handled),
        }
    }
}

} // verus!

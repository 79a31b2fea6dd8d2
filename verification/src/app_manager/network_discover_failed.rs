//! After a failed discovery: scans again on the next heartbeat.
use vstd::prelude::*;

use super::{is_quiet, quiet, Context, Message, Response, State, Step};

verus! {

pub struct NetworkDiscoverFailed {}

impl NetworkDiscoverFailed {
    pub fn on_enter(&mut self, context: &mut Context) -> (r: Step)
        ensures
            is_quiet(r, Response::Handled),
            *final(context) == *old(context),
    {
        quiet(Response::Handled)
    }

    pub fn on_event(&mut self, event: &Message, context: &mut Context) -> (r: Step)
        ensures
            is_quiet(
                r,
                if event is HeartBeat {
                    Response::Transition(State::DiscoverNetwork)
                } else {
                    Response::Handled
                },
            ),
            *final(context) == *old(context),
    {
        match event {
            Message::HeartBeat(_) => quiet(Response::Transition(State::DiscoverNetwork)),
            _ => quiet(Response::Handled),
        }
    }
}

} // verus!

//! The stack is up; a heartbeat initializes it again as the coordinator.
use vstd::prelude::*;

use super::{is_quiet, quiet, Context, Message, Response, State, Step};

verus! {

pub struct Ready {}

impl Ready {
    pub fn new() -> (r: Self) {
        Ready {  }
    }

    pub fn on_enter(&mut self, context: &mut Context) -> (r: Step)
        ensures
            is_quiet(r, Response::Handled),
            *final(context) == *old(context),
    {
        quiet(Response::Handled)
    }

    pub fn on_event(&mut self, event: &Message, context: &mut Context) -> (r: Step)
        ensures
            event is HeartBeat ==> is_quiet(r, Response::Transition(State::StackInitialize))
                && final(context).is_coordinator && final(context).extended_addr == old(
                context,
            ).extended_addr && final(context).settings == old(context).settings
                && final(context).pan_descriptors == old(context).pan_descriptors,
            !(event is HeartBeat) ==> is_quiet(r, Response::Handled) && *final(context) == *old(
                context,
            ),
    {
        match event {
            Message::HeartBeat(_) => {
                context.is_coordinator = true;
                quiet(Response::Transition(State::StackInitialize))
            },
            _ => quiet(Response::Handled),
        }
    }
}

} // verus!

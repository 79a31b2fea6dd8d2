//! Waiting for the modem to start.
use vstd::prelude::*;

use super::{is_quiet, quiet, Context, Message, Response, State, Step};

verus! {

pub struct Idle {}

impl Idle {
    pub fn on_enter(&mut self, context: &mut Context) -> (r: Step)
        ensures
            is_quiet(r, Response::Handled),
            *final(context) == *old(context),
    {
        quiet(Response::Handled)
    }

    /// The modem's start leads to the stack's initialization.
    pub fn on_event(&mut self, event: &Message, context: &mut Context) -> (r: Step)
        ensures
            is_quiet(
                r,
                if event is Startup {
                    Response::Transition(State::StackInitialize)
                } else {
                    Response::Handled
                },
            ),
            *final(context) == *old(context),
    {
        match event {
            Message::Adp(_) => quiet(Response::Handled),
            Message::HeartBeat(_) => quiet(Response::Handled),
            Message::Startup => quiet(Response::Transition(State::StackInitialize)),
        }
    }
}

} // verus!

//! The start-up of the G3 stack as a state machine: each state says what to
//! send to the modem when it is entered and on each event, and which state
//! comes next. The program runs the machine and does the sending.
use vstd::prelude::*;

use crate::adp;
use crate::adp::{TAdpPanDescriptor, TExtendedAddress};
use crate::app_config;
use crate::request::is_adp_message;
use crate::usi::OutMessage;

pub mod discover_network;
pub mod get_params;
pub mod idle;
pub mod join_network;
pub mod join_network_failed;
pub mod network_discover_failed;
pub mod ready;
pub mod set_coord_short_addr;
pub mod set_params;
pub mod stack_initialize;
pub mod start_network;

verus! {

/// The states of the start-up.
#[derive(Clone, Copy, PartialEq, Eq, Structural, Debug, Hash)]
pub enum State {
    Idle,
    SetCoordShortAddr,
    StackInitialize,
    SetParams,
    GetParams,
    JoinNetwork,
    StartNetwork,
    Ready,
    JoinNetworkFailed,
    DiscoverNetwork,
    NetworkDiscoverFailed,
}

/// The events of the start-up: what the modem sent, the heartbeat, and the
/// modem's start.
#[derive(Debug)]
pub enum Message {
    Adp(adp::Message),
    HeartBeat(std::time::SystemTime),
    Startup,
}

/// Something that sends commands.
pub trait CommandSender<C> {
    fn send_cmd(&self, cmd: C) -> bool;
}

/// Whether a state stays or hands over to another.
#[derive(Clone, Copy, PartialEq, Eq, Structural, Debug)]
pub enum Response {
    Handled,
    Transition(State),
}

/// What a state asks for: the commands to send to the modem, the response
/// once they are sent, and the response if one of them could not be sent.
pub struct Step {
    pub commands: Vec<OutMessage>,
    pub response: Response,
    pub response_if_unsent: Response,
}

/// What the states share.
#[derive(Debug)]
pub struct Context {
    pub is_coordinator: bool,
    pub extended_addr: Option<TExtendedAddress>,
    pub settings: app_config::Settings,
    pub pan_descriptors: Vec<TAdpPanDescriptor>,
}

impl Context {
    pub fn new(is_coordinator: bool, settings: app_config::Settings) -> (r: Self)
        ensures
            r.is_coordinator == is_coordinator,
            r.extended_addr is None,
            r.settings == settings,
            r.pan_descriptors@ == Seq::<TAdpPanDescriptor>::empty(),
    {
        Context { is_coordinator, extended_addr: None, settings, pan_descriptors: Vec::new() }
    }
}

/// `s` sends nothing and answers `r`.
pub open spec fn is_quiet(s: Step, r: Response) -> bool {
    &&& s.commands@.len() == 0
    &&& s.response == r
    &&& s.response_if_unsent == r
}

/// `s` sends the one ADP command `d` and answers `r`, or `r_unsent` when it
/// could not be sent.
pub open spec fn sends_one(s: Step, d: Seq<u8>, r: Response, r_unsent: Response) -> bool {
    &&& s.commands@.len() == 1
    &&& is_adp_message(s.commands@[0], d)
    &&& s.response == r
    &&& s.response_if_unsent == r_unsent
}

pub fn quiet(r: Response) -> (s: Step)
    ensures
        is_quiet(s, r),
{
    Step { commands: Vec::new(), response: r, response_if_unsent: r }
}

pub fn send_one(m: OutMessage, r: Response, r_unsent: Response) -> (s: Step)
    ensures
        s.commands@ == seq![m],
        s.response == r,
        s.response_if_unsent == r_unsent,
{
    let mut commands: Vec<OutMessage> = Vec::new();
    commands.push(m);
    assert(commands@ =~= seq![m]);
    Step { commands, response: r, response_if_unsent: r_unsent }
}

} // verus!

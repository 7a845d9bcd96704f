//! Per-connection session state and the decisions of the session loop.
use crate::packet::Packet;
use std::sync::Arc;
use vstd::prelude::*;

verus! {

/// The account that a session has logged in as.
#[derive(Debug)]
pub struct User {
    pub user_id: u32,
    pub username: String,
    pub persona_id: u32,
}

/// Mutable state of one session: the logged-in user, if any.
pub struct SessionData {
    user: Option<Arc<User>>,
}

impl View for SessionData {
    type V = Option<User>;

    closed spec fn view(&self) -> Option<User> {
        match self.user {
            Some(u) => Some(*u),
            None => None,
        }
    }
}

impl SessionData {
    /// State of a fresh session: nobody logged in.
    pub fn new() -> (s: Self)
        ensures
            s@ is None,
    {
        Self { user: None }
    }

    /// The logged-in user, if any.
    pub fn get_user(&self) -> (r: Option<Arc<User>>)
        ensures
            match r {
                Some(u) => self@ == Some(*u),
                None => self@ is None,
            },
    {
        match &self.user {
            Some(u) => Some(u.clone()),
            None => None,
        }
    }

    /// Records `user` as the logged-in user, replacing any earlier one.
    pub fn set_user(&mut self, user: Arc<User>)
        ensures
            final(self)@ == Some(*user),
    {
        self.user = Some(user);
    }
}

/// What the session loop saw while waiting for the next packet.
pub enum SessionEvent {
    /// A packet arrived from the socket.
    Received(Packet),
    /// The socket's channel closed.
    Closed,
    /// No packet arrived within the keep-alive timeout.
    TimedOut,
}

/// What the session loop does next.
pub enum SessionAction {
    /// Route the packet, send the response, and wait for the next one.
    Handle(Packet),
    /// Leave the loop; the session ends.
    Stop,
}

/// The decision of the session loop on `event`.
pub open spec fn session_decision(event: SessionEvent) -> SessionAction {
    match event {
        SessionEvent::Received(p) => SessionAction::Handle(p),
        SessionEvent::Closed => SessionAction::Stop,
        SessionEvent::TimedOut => SessionAction::Stop,
    }
}

/// One decision of the session loop: a received packet is handled, a closed
/// channel or a keep-alive timeout ends the session.
pub fn run_session_step(event: SessionEvent) -> (a: SessionAction)
    ensures
        a == session_decision(event),
        event matches SessionEvent::Received(p) ==> a == SessionAction::Handle(p),
        event is Closed || event is TimedOut ==> a is Stop,
{
    match event {
        SessionEvent::Received(packet) => SessionAction::Handle(packet),
        SessionEvent::Closed => SessionAction::Stop,
        SessionEvent::TimedOut => SessionAction::Stop,
    }
}

/// The packets that the session loop handles, in order, when it takes the
/// decision on each of `events` in turn until one stops it.
pub open spec fn session_handled(events: Seq<SessionEvent>) -> Seq<Packet>
    decreases events.len(),
{
    if events.len() == 0 {
        Seq::empty()
    } else {
        match session_decision(events[0]) {
            SessionAction::Handle(p) => seq![p] + session_handled(events.drop_first()),
            SessionAction::Stop => Seq::empty(),
        }
    }
}

/// The packets received before the first closed channel or timeout.
pub open spec fn received_before_stop(events: Seq<SessionEvent>) -> Seq<Packet>
    decreases events.len(),
{
    if events.len() == 0 {
        Seq::empty()
    } else {
        match events[0] {
            SessionEvent::Received(p) => seq![p] + received_before_stop(events.drop_first()),
            _ => Seq::empty(),
        }
    }
}

/// The session loop handles every received packet, once and in the order
/// of arrival, and stops at the first closed channel or timeout: nothing
/// after it is handled.
pub proof fn lemma_session_order(events: Seq<SessionEvent>)
    ensures
        session_handled(events) == received_before_stop(events),
    decreases events.len(),
{
    if events.len() > 0 {
        lemma_session_order(events.drop_first());
    }
}
} // verus!

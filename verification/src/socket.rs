//! Decisions of the socket loop, which moves frames between a connection
//! and the session.
use crate::packet::Packet;
use vstd::prelude::*;

verus! {

/// What the socket loop saw.
pub enum SocketEvent<E> {
    /// The connection produced a frame, or failed to.
    Inbound(Result<Packet, E>),
    /// The session no longer accepts inbound packets.
    InboundClosed,
    /// The session queued a packet for the connection.
    Outbound(Packet),
    /// Neither the connection nor the session has anything more.
    Exhausted,
}

/// What the socket loop does next.
pub enum SocketAction<E> {
    /// Pass the packet to the session.
    Forward(Packet),
    /// Write the packet to the connection.
    Write(Packet),
    /// Stop with the connection's error.
    Fail(E),
    /// Stop and close the connection.
    Close,
}

/// The decision of the socket loop on `event`.
pub open spec fn socket_decision<E>(event: SocketEvent<E>) -> SocketAction<E> {
    match event {
        SocketEvent::Inbound(Ok(p)) => SocketAction::Forward(p),
        SocketEvent::Inbound(Err(e)) => SocketAction::Fail(e),
        SocketEvent::InboundClosed => SocketAction::Close,
        SocketEvent::Outbound(p) => SocketAction::Write(p),
        SocketEvent::Exhausted => SocketAction::Close,
    }
}

/// One decision of the socket loop: frames go to the session, queued packets
/// go to the connection, a read error ends the loop with that error, and the
/// loop closes the connection once the session stops listening or both sides
/// are exhausted.
pub fn run_socket_step<E>(event: SocketEvent<E>) -> (a: SocketAction<E>)
    ensures
        a == socket_decision(event),
        event matches SocketEvent::Inbound(Ok(p)) ==> a == SocketAction::<E>::Forward(p),
        event matches SocketEvent::Inbound(Err(e)) ==> a == SocketAction::<E>::Fail(e),
        event matches SocketEvent::Outbound(p) ==> a == SocketAction::<E>::Write(p),
        event is InboundClosed || event is Exhausted ==> a is Close,
{
    match event {
        SocketEvent::Inbound(Ok(packet)) => SocketAction::Forward(packet),
        SocketEvent::Inbound(Err(e)) => SocketAction::Fail(e),
        SocketEvent::InboundClosed => SocketAction::Close,
        SocketEvent::Outbound(packet) => SocketAction::Write(packet),
        SocketEvent::Exhausted => SocketAction::Close,
    }
}

/// Whether the socket loop goes on after `action`.
pub open spec fn continues<E>(action: SocketAction<E>) -> bool {
    action is Forward || action is Write
}

/// The packets that the socket loop passes to the session, in order, when
/// it takes the decision on each of `events` in turn until one stops it.
pub open spec fn socket_forwarded<E>(events: Seq<SocketEvent<E>>) -> Seq<Packet>
    decreases events.len(),
{
    if events.len() == 0 {
        Seq::empty()
    } else {
        match socket_decision(events[0]) {
            SocketAction::Forward(p) => seq![p] + socket_forwarded(events.drop_first()),
            SocketAction::Write(_) => socket_forwarded(events.drop_first()),
            _ => Seq::empty(),
        }
    }
}

/// The packets that the socket loop writes to the connection, in order,
/// over the same run.
pub open spec fn socket_written<E>(events: Seq<SocketEvent<E>>) -> Seq<Packet>
    decreases events.len(),
{
    if events.len() == 0 {
        Seq::empty()
    } else {
        match socket_decision(events[0]) {
            SocketAction::Write(p) => seq![p] + socket_written(events.drop_first()),
            SocketAction::Forward(_) => socket_written(events.drop_first()),
            _ => Seq::empty(),
        }
    }
}

/// The action that ends the run, if one of `events` ends it.
pub open spec fn socket_end<E>(events: Seq<SocketEvent<E>>) -> Option<SocketAction<E>>
    decreases events.len(),
{
    if events.len() == 0 {
        None
    } else if continues(socket_decision(events[0])) {
        socket_end(events.drop_first())
    } else {
        Some(socket_decision(events[0]))
    }
}

/// Whether `event` stops the socket loop.
pub open spec fn stops<E>(event: SocketEvent<E>) -> bool {
    match event {
        SocketEvent::Inbound(Ok(_)) => false,
        SocketEvent::Outbound(_) => false,
        _ => true,
    }
}

/// The frames decoded before the first stopping event.
pub open spec fn inbound_before_stop<E>(events: Seq<SocketEvent<E>>) -> Seq<Packet>
    decreases events.len(),
{
    if events.len() == 0 || stops(events[0]) {
        Seq::empty()
    } else {
        match events[0] {
            SocketEvent::Inbound(Ok(p)) => seq![p] + inbound_before_stop(events.drop_first()),
            _ => inbound_before_stop(events.drop_first()),
        }
    }
}

/// The packets queued before the first stopping event.
pub open spec fn outbound_before_stop<E>(events: Seq<SocketEvent<E>>) -> Seq<Packet>
    decreases events.len(),
{
    if events.len() == 0 || stops(events[0]) {
        Seq::empty()
    } else {
        match events[0] {
            SocketEvent::Outbound(p) => seq![p] + outbound_before_stop(events.drop_first()),
            _ => outbound_before_stop(events.drop_first()),
        }
    }
}

/// The first stopping event, if any.
pub open spec fn first_stop<E>(events: Seq<SocketEvent<E>>) -> Option<SocketEvent<E>>
    decreases events.len(),
{
    if events.len() == 0 {
        None
    } else if stops(events[0]) {
        Some(events[0])
    } else {
        first_stop(events.drop_first())
    }
}

/// The socket loop passes every decoded frame to the session and writes
/// every queued packet to the connection, each once and in order, until the
/// first stopping event; a read error there ends the loop with that error,
/// and a closed session or exhausted sides close the connection.
pub proof fn lemma_socket_order<E>(events: Seq<SocketEvent<E>>)
    ensures
        socket_forwarded(events) == inbound_before_stop(events),
        socket_written(events) == outbound_before_stop(events),
        socket_end(events) == match first_stop(events) {
            Some(e) => Some(socket_decision(e)),
            None => None::<SocketAction<E>>,
        },
        first_stop(events) matches Some(SocketEvent::Inbound(Err(e))) ==> socket_end(events)
            == Some(SocketAction::<E>::Fail(e)),
    decreases events.len(),
{
    if events.len() > 0 {
        lemma_socket_order(events.drop_first());
    }
}
} // verus!

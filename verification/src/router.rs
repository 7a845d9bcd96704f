//! Routing of requests to handlers by (component, command).
use crate::packet::{Fire2Frame, MessageType, Packet, PacketView};
use std::collections::HashMap;
use vstd::prelude::*;

verus! {

broadcast use vstd::std_specs::hash::group_hash_axioms;

/// The routing key of a component and command: component in the high 16
/// bits, command in the low 16.
pub open spec fn spec_component_key(component: u16, command: u16) -> u32 {
    (component * 65536 + command) as u32
}

/// The routing key of a component and command.
pub fn component_key(component: u16, command: u16) -> (k: u32)
    ensures
        k == spec_component_key(component, command),
        k == component * 65536 + command,
{
    let c = component as u32;
    let m = command as u32;
    assert((c << 16) + m == c * 65536 + m) by (bit_vector)
        requires
            c < 65536,
            m < 65536,
    ;
    (c << 16) + m
}

/// Distinct (component, command) pairs have distinct routing keys.
pub proof fn lemma_component_key_injective(c1: u16, m1: u16, c2: u16, m2: u16)
    ensures
        spec_component_key(c1, m1) == spec_component_key(c2, m2) <==> (c1 == c2 && m1 == m2),
{
    assert(c1 * 65536 + m1 < 4294967296);
    assert(c2 * 65536 + m2 < 4294967296);
}

/// The handler that a route table holds for the header `frame`, if any.
pub open spec fn route_for<H>(routes: Map<u32, H>, frame: Fire2Frame) -> Option<H> {
    let key = spec_component_key(frame.component, frame.command);
    if routes.contains_key(key) {
        Some(routes[key])
    } else {
        None
    }
}

/// A table from routing keys to handlers.
pub struct Router<H> {
    routes: HashMap<u32, H>,
}

impl<H> View for Router<H> {
    type V = Map<u32, H>;

    closed spec fn view(&self) -> Map<u32, H> {
        self.routes@
    }
}

/// What to do with a request: call its handler, or send the given reply
/// when no handler is registered.
pub enum RouteAction<H> {
    Call(H),
    Reply(Packet),
}

impl<H> Router<H> {
    /// An empty route table.
    pub fn new() -> (r: Self)
        ensures
            r@ == Map::<u32, H>::empty(),
    {
        Self { routes: HashMap::new() }
    }

    /// This table with `handler` registered for `component`/`command`,
    /// replacing any handler registered there before.
    pub fn route(self, component: u16, command: u16, handler: H) -> (r: Self)
        ensures
            r@ == self@.insert(spec_component_key(component, command), handler),
    {
        let mut routes = self.routes;
        let key = component_key(component, command);
        routes.insert(key, handler);
        Self { routes }
    }

    /// Decides what to do with `packet`: call the handler registered for its
    /// component and command, or, when there is none, reply with an empty
    /// reply.
    pub fn handle(&self, packet: &Packet) -> (a: RouteAction<H>)
        where
            H: Copy,
        ensures
            match route_for(self@, packet.frame) {
                Some(h) => a matches RouteAction::Call(g) && g == h,
                None => a matches RouteAction::Reply(p) && p@ == (PacketView {
                    frame: Fire2Frame { msg_type: MessageType::Reply, ..packet.frame },
                    metadata: Seq::empty(),
                    contents: Seq::empty(),
                }),
            },
    {
        let key = component_key(packet.frame.component, packet.frame.command);
        match self.routes.get(&key) {
            Some(handler) => RouteAction::Call(*handler),
            None => RouteAction::Reply(Packet::reply_empty(packet)),
        }
    }
}

/// Registering a handler makes it the one chosen for its own component and
/// command, and changes the choice for no other header.
pub proof fn lemma_route_then_dispatch<H>(
    routes: Map<u32, H>,
    component: u16,
    command: u16,
    handler: H,
    frame: Fire2Frame,
)
    ensures
        (frame.component == component && frame.command == command) ==> route_for(
            routes.insert(spec_component_key(component, command), handler),
            frame,
        ) == Some(handler),
        !(frame.component == component && frame.command == command) ==> route_for(
            routes.insert(spec_component_key(component, command), handler),
            frame,
        ) == route_for(routes, frame),
{
    lemma_component_key_injective(component, command, frame.component, frame.command);
}

/// The route table after registering, in order, each (component, command,
/// handler) of `regs` on top of `routes`.
pub open spec fn registered<H>(routes: Map<u32, H>, regs: Seq<(u16, u16, H)>) -> Map<u32, H>
    decreases regs.len(),
{
    if regs.len() == 0 {
        routes
    } else {
        registered(routes, regs.drop_last()).insert(
            spec_component_key(regs.last().0, regs.last().1),
            regs.last().2,
        )
    }
}

/// The handler of the last registration in `regs` for `component` and
/// `command`, if any.
pub open spec fn last_registration<H>(regs: Seq<(u16, u16, H)>, component: u16, command: u16) -> Option<H>
    decreases regs.len(),
{
    if regs.len() == 0 {
        None
    } else if regs.last().0 == component && regs.last().1 == command {
        Some(regs.last().2)
    } else {
        last_registration(regs.drop_last(), component, command)
    }
}

/// After any sequence of registrations, a header is dispatched to the
/// handler of the last registration for its component and command; a
/// header that no registration names is dispatched as before them (so from
/// an empty table, to the empty reply).
pub proof fn lemma_registrations_dispatch<H>(
    routes: Map<u32, H>,
    regs: Seq<(u16, u16, H)>,
    frame: Fire2Frame,
)
    ensures
        route_for(registered(routes, regs), frame) == match last_registration(
            regs,
            frame.component,
            frame.command,
        ) {
            Some(h) => Some(h),
            None => route_for(routes, frame),
        },
    decreases regs.len(),
{
    if regs.len() > 0 {
        let last = regs.last();
        lemma_registrations_dispatch(routes, regs.drop_last(), frame);
        lemma_route_then_dispatch(
            registered(routes, regs.drop_last()),
            last.0,
            last.1,
            last.2,
            frame,
        );
    }
}

/// Registrations for distinct (component, command) pairs can be made in
/// either order; of two registrations for the same pair the later wins.
pub proof fn lemma_route_order<H>(
    routes: Map<u32, H>,
    c1: u16,
    m1: u16,
    h1: H,
    c2: u16,
    m2: u16,
    h2: H,
)
    ensures
        !(c1 == c2 && m1 == m2) ==> routes.insert(spec_component_key(c1, m1), h1).insert(
            spec_component_key(c2, m2),
            h2,
        ) == routes.insert(spec_component_key(c2, m2), h2).insert(
            spec_component_key(c1, m1),
            h1,
        ),
        (c1 == c2 && m1 == m2) ==> routes.insert(spec_component_key(c1, m1), h1).insert(
            spec_component_key(c2, m2),
            h2,
        ) == routes.insert(spec_component_key(c2, m2), h2),
{
    lemma_component_key_injective(c1, m1, c2, m2);
    let k1 = spec_component_key(c1, m1);
    let k2 = spec_component_key(c2, m2);
    if !(c1 == c2 && m1 == m2) {
        assert(routes.insert(k1, h1).insert(k2, h2) =~= routes.insert(k2, h2).insert(k1, h1));
    } else {
        assert(routes.insert(k1, h1).insert(k2, h2) =~= routes.insert(k2, h2));
    }
}

} // verus!

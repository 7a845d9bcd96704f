use bytes::{Bytes, BytesMut};
use pamplona::packet::{Fire2Frame, MessageType, Packet};
use pamplona::router::{component_key, RouteAction, Router};

fn request(component: u16, command: u16) -> Packet {
    Packet::new(
        Fire2Frame {
            component,
            command,
            msg_num: 12,
            msg_type: MessageType::Message,
        },
        Bytes::new(),
        Bytes::from_static(&[1, 2]),
    )
}

#[test]
fn component_key_packs_component_high_command_low() {
    assert_eq!(component_key(0, 0), 0);
    assert_eq!(component_key(1, 10), 65546);
    assert_eq!(component_key(30722, 20), 30722 * 65536 + 20);
    assert_eq!(component_key(u16::MAX, u16::MAX), u32::MAX);
}

#[test]
fn routed_request_calls_its_handler() {
    let router = Router::new().route(9, 2, "ping").route(25, 6, "lists");
    match router.handle(&request(25, 6)) {
        RouteAction::Call(h) => assert_eq!(h, "lists"),
        RouteAction::Reply(_) => panic!("expected a handler"),
    }
    match router.handle(&request(9, 2)) {
        RouteAction::Call(h) => assert_eq!(h, "ping"),
        RouteAction::Reply(_) => panic!("expected a handler"),
    }
}

#[test]
fn later_route_replaces_earlier() {
    let router = Router::new().route(1, 10, 1u8).route(1, 10, 2u8);
    assert!(matches!(router.handle(&request(1, 10)), RouteAction::Call(2)));
}

#[test]
fn component_and_command_are_not_confused() {
    let router = Router::new().route(1, 2, 'a');
    assert!(matches!(router.handle(&request(2, 1)), RouteAction::Reply(_)));
    assert!(matches!(router.handle(&request(1, 2)), RouteAction::Call('a')));
}

#[test]
fn unrouted_request_gets_empty_reply() {
    let router: Router<u8> = Router::new();
    match router.handle(&request(4, 4)) {
        RouteAction::Reply(p) => {
            assert_eq!(p.frame.msg_type, MessageType::Reply);
            assert_eq!((p.frame.component, p.frame.command, p.frame.msg_num), (4, 4, 12));
            assert!(p.metadata.is_empty() && p.contents.is_empty());
            let mut buf = BytesMut::new();
            p.write(&mut buf);
            assert_eq!(buf.len(), 16);
        }
        RouteAction::Call(_) => panic!("nothing is routed"),
    }
}

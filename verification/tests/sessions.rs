use bytes::Bytes;
use pamplona::oauth::{
    check_status, check_token, DiscordApplication, DiscordUser, OAuth2MeResponse, OAuthError,
    UtcTime, earlier,
};
use pamplona::packet::{Fire2Frame, MessageType, Packet};
use pamplona::session::{run_session_step, SessionAction, SessionData, SessionEvent, User};
use pamplona::socket::{run_socket_step, SocketAction, SocketEvent};
use std::sync::Arc;

fn packet(n: u32) -> Packet {
    Packet::empty(Fire2Frame {
        component: 1,
        command: 2,
        msg_num: n,
        msg_type: MessageType::Message,
    })
}

#[test]
fn new_session_has_no_user() {
    assert!(SessionData::new().get_user().is_none());
}

#[test]
fn get_user_returns_what_was_set() {
    let mut data = SessionData::new();
    data.set_user(Arc::new(User {
        user_id: 1,
        username: "a".to_string(),
        persona_id: 2,
    }));
    data.set_user(Arc::new(User {
        user_id: 3,
        username: "b".to_string(),
        persona_id: 4,
    }));
    let u = data.get_user().unwrap();
    assert_eq!((u.user_id, u.username.as_str(), u.persona_id), (3, "b", 4));
}

#[test]
fn session_loop_handles_packets_and_stops_otherwise() {
    match run_session_step(SessionEvent::Received(packet(9))) {
        SessionAction::Handle(p) => assert_eq!(p.frame.msg_num, 9),
        SessionAction::Stop => panic!("packet must be handled"),
    }
    assert!(matches!(run_session_step(SessionEvent::Closed), SessionAction::Stop));
    assert!(matches!(run_session_step(SessionEvent::TimedOut), SessionAction::Stop));
}

#[test]
fn socket_loop_decisions() {
    assert!(matches!(
        run_socket_step::<&str>(SocketEvent::Inbound(Ok(packet(1)))),
        SocketAction::Forward(p) if p.frame.msg_num == 1
    ));
    assert!(matches!(
        run_socket_step(SocketEvent::Inbound(Err("broken"))),
        SocketAction::Fail("broken")
    ));
    assert!(matches!(
        run_socket_step::<&str>(SocketEvent::Outbound(packet(2))),
        SocketAction::Write(p) if p.frame.msg_num == 2
    ));
    assert!(matches!(run_socket_step::<&str>(SocketEvent::InboundClosed), SocketAction::Close));
    assert!(matches!(run_socket_step::<&str>(SocketEvent::Exhausted), SocketAction::Close));
    let _ = Bytes::new();
}

#[test]
fn success_statuses_pass() {
    assert!(check_status(200).is_ok());
    assert!(check_status(204).is_ok());
    assert!(check_status(299).is_ok());
}

#[test]
fn failure_statuses_are_invalid_tokens() {
    for s in [199u16, 300, 401, 500] {
        assert!(matches!(check_status(s), Err(OAuthError::InvalidToken(c)) if c == s));
    }
}

fn me(app: &str, secs: i64) -> OAuth2MeResponse {
    OAuth2MeResponse {
        application: DiscordApplication { id: app.to_string() },
        user: DiscordUser {
            id: "99".to_string(),
            username: "faith".to_string(),
        },
        expires: UtcTime { secs, nanos: 0 },
    }
}

#[test]
fn valid_token_gives_user() {
    let now = UtcTime { secs: 100, nanos: 0 };
    let u = check_token(me("app", 200), Some("app".to_string()), now).ok().unwrap();
    assert_eq!((u.id.as_str(), u.username.as_str()), ("99", "faith"));
}

#[test]
fn token_expiring_exactly_now_is_accepted() {
    let now = UtcTime { secs: 100, nanos: 0 };
    assert!(check_token(me("app", 100), Some("app".to_string()), now).is_ok());
}

#[test]
fn token_checks_in_order() {
    let now = UtcTime { secs: 100, nanos: 0 };
    assert!(matches!(check_token(me("other", 50), None, now), Err(OAuthError::MissingClientId)));
    assert!(matches!(
        check_token(me("other", 50), Some("app".to_string()), now),
        Err(OAuthError::InvalidClientId)
    ));
    assert!(matches!(
        check_token(me("app", 50), Some("app".to_string()), now),
        Err(OAuthError::ExpiredToken)
    ));
}

#[test]
fn earlier_compares_seconds_then_nanos() {
    let a = UtcTime { secs: 5, nanos: 10 };
    let b = UtcTime { secs: 5, nanos: 11 };
    let c = UtcTime { secs: 6, nanos: 0 };
    assert!(earlier(a, b) && earlier(b, c) && earlier(a, c));
    assert!(!earlier(b, a) && !earlier(a, a));
}

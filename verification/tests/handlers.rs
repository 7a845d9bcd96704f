use bytes::Bytes;
use pamplona::models::association_lists::{association_lists, GetListsResponse};
use pamplona::models::authentication::{
    entitlements, AuthRequest, AuthRequestError, AuthResponse, ListEntitlementsResponse,
};
use pamplona::models::user_sessions::{
    UpdateExtendedDataAttribute, UpdateHardwareFlags, UserSessionExtendedData, ValidateSessionKey,
};
use pamplona::packet::{Fire2Frame, MessageType, Packet};
use pamplona::routes::{
    client_config, get_lists, keep_alive, list_entitlments, set_client_metrics, set_client_state,
    update_network_info, EndpointUrls, NO_USER_ERROR,
};
use pamplona::login::{login_success, plan_account, AccountPlan};
use pamplona::session::{SessionData, User};
use pamplona::tdf_out::TdfEncode;
use std::sync::Arc;
use tdf::TdfSerializer;

fn request(component: u16, command: u16, contents: Vec<u8>) -> Packet {
    Packet::new(
        Fire2Frame {
            component,
            command,
            msg_num: 31,
            msg_type: MessageType::Message,
        },
        Bytes::new(),
        Bytes::from(contents),
    )
}

fn encoded<T: TdfEncode>(value: &T) -> Vec<u8> {
    let mut w = Vec::new();
    value.serialize(&mut w);
    w
}

fn user() -> Arc<User> {
    Arc::new(User {
        user_id: 5,
        username: "runner".to_string(),
        persona_id: 6,
    })
}

#[test]
fn keep_alive_answers_with_empty_ping_reply() {
    let r = keep_alive(&request(0, 0, vec![1, 2, 3]));
    assert_eq!(
        r.frame,
        Fire2Frame {
            component: 0,
            command: 0,
            msg_num: 31,
            msg_type: MessageType::PingReply
        }
    );
    assert!(r.metadata.is_empty() && r.contents.is_empty());
}

#[test]
fn get_lists_replies_with_the_three_lists() {
    let req = request(25, 6, vec![]);
    let r = get_lists(&req);
    assert_eq!(r.frame, req.frame.reply());
    assert!(r.metadata.is_empty());
    assert_eq!(&r.contents[..], &encoded(&GetListsResponse { list: association_lists() })[..]);
}

#[test]
fn list_entitlments_replies_with_online_access() {
    let req = request(1, 29, vec![]);
    let r = list_entitlments(&req);
    assert_eq!(r.frame.msg_type, MessageType::Reply);
    assert_eq!(&r.contents[..], &encoded(&ListEntitlementsResponse { list: entitlements() })[..]);
}

#[test]
fn client_state_and_metrics_get_empty_replies() {
    for r in [
        set_client_state(&request(9, 28, vec![7])),
        set_client_metrics(&request(9, 22, vec![7])),
    ] {
        assert_eq!(r.frame.msg_type, MessageType::Reply);
        assert_eq!(r.frame.msg_num, 31);
        assert!(r.metadata.is_empty() && r.contents.is_empty());
    }
}

#[test]
fn update_network_info_without_user_fails_with_code_one() {
    let r = update_network_info(None, &request(30722, 20, vec![]));
    assert!(matches!(r, Err(1)));
    assert_eq!(NO_USER_ERROR, 1);
}

#[test]
fn update_network_info_with_user_validates_session_key() {
    let req = request(30722, 20, vec![]);
    let out = update_network_info(Some(user()), &req).ok().expect("user present");
    assert_eq!(
        out.notification.frame,
        Fire2Frame {
            component: 30722,
            command: 1,
            msg_num: 0,
            msg_type: MessageType::Notification
        }
    );
    assert_eq!(
        &out.notification.contents[..],
        &encoded(&ValidateSessionKey { user: user() })[..]
    );
    assert_eq!(out.reply.frame, req.frame.reply());
    assert!(out.reply.contents.is_empty());
}

#[test]
fn notification_carries_body() {
    let p = Packet::notification(30722, 5, ValidateSessionKey { user: user() });
    assert_eq!(p.frame.msg_type, MessageType::Notification);
    assert_eq!((p.frame.component, p.frame.command, p.frame.msg_num), (30722, 5, 0));
    assert_eq!(&p.contents[..], &encoded(&ValidateSessionKey { user: user() })[..]);
}

#[test]
fn auth_request_reads_the_token() {
    let mut contents = Vec::new();
    contents.tag_u8(b"XTRA", 1);
    contents.tag_str(b"AUTH", "access-token");
    let req = AuthRequest::deserialize(&request(1, 10, contents)).expect("token present");
    assert_eq!(req.token, "access-token");
}

#[test]
fn auth_request_without_token_is_an_error() {
    let mut contents = Vec::new();
    contents.tag_u8(b"XTRA", 1);
    assert!(matches!(
        AuthRequest::deserialize(&request(1, 10, contents)),
        Err(AuthRequestError::Decode(_))
    ));
    assert!(matches!(
        AuthRequest::deserialize(&request(1, 10, vec![])),
        Err(AuthRequestError::Decode(_))
    ));
}

#[test]
fn auth_request_with_huge_length_is_refused_unread() {
    // A string field whose length is 2^64 - 1: ten bytes, nine of them with
    // the high bit set.
    let mut contents = Vec::new();
    contents.tag_str(b"AUTH", "");
    contents.truncate(4);
    contents.extend_from_slice(&[0xFF; 9]);
    contents.push(0x7F);
    assert!(matches!(
        AuthRequest::deserialize(&request(1, 10, contents)),
        Err(AuthRequestError::Unbounded)
    ));
}

#[test]
fn large_flat_auth_request_is_read() {
    let mut contents = Vec::new();
    contents.tag_str(b"NAME", &"n".repeat(300));
    let token = "t".repeat(200);
    contents.tag_str(b"AUTH", &token);
    assert!(contents.len() > 500);
    let req = AuthRequest::deserialize(&request(1, 10, contents)).ok().expect("readable");
    assert_eq!(req.token, token);
}

#[test]
fn non_ascii_fields_are_read() {
    let mut contents = Vec::new();
    // Two-byte characters: runs of six high-bit bytes.
    contents.tag_str(b"NAME", "\u{e9}\u{e9}\u{e9}");
    contents.tag_str(b"AUTH", "tok");
    let req = AuthRequest::deserialize(&request(1, 10, contents)).ok().expect("readable");
    assert_eq!(req.token, "tok");
}

#[test]
fn too_many_nesting_type_bytes_are_refused_unread() {
    let mut contents = Vec::new();
    contents.tag_str(b"AUTH", "tok");
    contents.extend_from_slice(&[3u8; 1025]);
    assert!(matches!(
        AuthRequest::deserialize(&request(1, 10, contents)),
        Err(AuthRequestError::Unbounded)
    ));
}

#[test]
fn nesting_type_bytes_below_the_limit_are_read() {
    // The string length of the AUTH field (4) counts as one more.
    let mut contents = Vec::new();
    contents.tag_str(b"FILL", &"\u{3}".repeat(pamplona::tdf_in::MAX_NESTING_BYTES - 1));
    contents.tag_str(b"AUTH", "tok");
    let req = AuthRequest::deserialize(&request(1, 10, contents)).ok().expect("readable");
    assert_eq!(req.token, "tok");
}

fn urls() -> EndpointUrls {
    EndpointUrls {
        gateway_api: "https://gw".to_string(),
        gateway_upload: "https://up".to_string(),
        engagement_api: "https://eng".to_string(),
    }
}

#[test]
fn identity_params_config() {
    let c = client_config(&"IdentityParams".to_string(), &urls());
    assert_eq!(
        c,
        vec![
            ("display".to_string(), "console2/welcome".to_string()),
            ("redirect_uri".to_string(), "http://127.0.0.1/success".to_string()),
        ]
    );
}

#[test]
fn pamplona_endpoints_config_is_sorted_and_uses_urls() {
    let c = client_config(&"PamplonaEndpoints".to_string(), &urls());
    assert_eq!(c.len(), 12);
    let keys: Vec<&str> = c.iter().map(|(k, _)| k.as_str()).collect();
    let mut sorted = keys.clone();
    sorted.sort();
    assert_eq!(keys, sorted);
    let get = |k: &str| c.iter().find(|(key, _)| key == k).map(|(_, v)| v.clone());
    assert_eq!(get("gatewayApiEndpointUrl").as_deref(), Some("https://gw"));
    assert_eq!(get("gatewayUploadEndpointUrl").as_deref(), Some("https://up"));
    assert_eq!(get("engagementManagerApiEndpointUrlBase").as_deref(), Some("https://eng"));
    assert_eq!(get("telemetryProjectId").as_deref(), Some("308903"));
}

#[test]
fn unknown_config_is_empty() {
    assert!(client_config(&"Other".to_string(), &urls()).is_empty());
    assert!(client_config(&"identityparams".to_string(), &urls()).is_empty());
}

#[test]
fn plan_account_decisions() {
    let name = "faith".to_string();
    assert!(matches!(plan_account(None, &name), AccountPlan::Create));
    assert!(matches!(
        plan_account(Some((7, "faith".to_string())), &name),
        AccountPlan::Existing { persona_id: 7, rename: false }
    ));
    assert!(matches!(
        plan_account(Some((7, "kate".to_string())), &name),
        AccountPlan::Existing { persona_id: 7, rename: true }
    ));
}

#[test]
fn login_success_builds_user_notification_and_reply() {
    let req = request(1, 10, vec![]);
    let mut data = SessionData::new();
    let out = login_success(&mut data, &req, 1001, "faith".to_string());
    let stored = data.get_user().expect("user set");
    assert_eq!((stored.user_id, stored.persona_id, stored.username.as_str()), (1001, 1001, "faith"));
    assert_eq!((out.user.user_id, out.user.persona_id), (1001, 1001));
    assert_eq!(out.user.username, "faith");
    assert_eq!(
        (out.notification.frame.component, out.notification.frame.command),
        (30722, 8)
    );
    assert_eq!(
        &out.notification.contents[..],
        &encoded(&UpdateHardwareFlags { user: out.user.clone() })[..]
    );
    assert_eq!(out.reply.frame, req.frame.reply());
    assert_eq!(&out.reply.contents[..], &encoded(&AuthResponse { user: out.user.clone() })[..]);
}

#[test]
fn login_success_cuts_persona_id_to_32_bits() {
    let mut data = SessionData::new();
    let out = login_success(&mut data, &request(1, 10, vec![]), (1i64 << 32) + 5, "x".to_string());
    assert_eq!(out.user.persona_id, 5);
}

#[test]
fn post_auth_sends_attribute_then_extended_data() {
    let n = pamplona::routes::post_auth_notifications(user());
    assert_eq!(n.len(), 2);
    assert_eq!((n[0].frame.component, n[0].frame.command), (30722, 5));
    assert_eq!((n[1].frame.component, n[1].frame.command), (30722, 2));
    assert!(n.iter().all(|p| p.frame.msg_type == MessageType::Notification && p.frame.msg_num == 0));
    assert_eq!(&n[0].contents[..], &encoded(&UpdateExtendedDataAttribute { user: user() })[..]);
    assert_eq!(&n[1].contents[..], &encoded(&UserSessionExtendedData { user: user() })[..]);
}

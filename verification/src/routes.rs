//! Request handlers whose answer depends only on the request and the session
//! user.
use crate::buffer::bytes_empty;
use crate::models::association_lists::{
    association_lists, encode_all, spec_block_list, spec_follow_list, spec_friend_list,
    GetListsResponse,
};
use crate::models::authentication::{entitlements, spec_online_access, ListEntitlementsResponse};
use crate::models::user_sessions::{
    UpdateExtendedDataAttribute, UserSessionExtendedData, ValidateSessionKey,
};
use crate::packet::{Fire2Frame, MessageType, Packet, PacketView};
use crate::session::User;
use crate::tdf_out::{tdf_list_start, ElementType, TdfEncode};
use std::sync::Arc;
use vstd::prelude::*;

verus! {

/// The view of the reply to `request` carrying `contents`.
pub open spec fn reply_view(request: PacketView, contents: Seq<u8>) -> PacketView {
    PacketView {
        frame: Fire2Frame { msg_type: MessageType::Reply, ..request.frame },
        metadata: Seq::empty(),
        contents,
    }
}

/// Component 0, command 0: answers a ping with an empty `PingReply` that
/// keeps the request's header otherwise.
pub fn keep_alive(packet: &Packet) -> (r: Packet)
    ensures
        r@ == (PacketView {
            frame: Fire2Frame { msg_type: MessageType::PingReply, ..packet.frame },
            metadata: Seq::empty(),
            contents: Seq::empty(),
        }),
{
    let mut frame = packet.frame;
    frame.msg_type = MessageType::PingReply;
    Packet::new(frame, bytes_empty(), bytes_empty())
}

/// The bytes of the association lists response.
pub open spec fn association_lists_bytes() -> Seq<u8> {
    tdf_list_start("LMAP"@, ElementType::Group, 3) + encode_all(
        seq![spec_friend_list(), spec_follow_list(), spec_block_list()],
    )
}

/// Component 25, command 6: replies with the friend, follow and block lists.
pub fn get_lists(packet: &Packet) -> (r: Packet)
    ensures
        r@ == reply_view(packet@, association_lists_bytes()),
{
    let body = GetListsResponse { list: association_lists() };
    Packet::reply(packet, body)
}

/// The bytes of the entitlements response.
pub open spec fn entitlements_bytes() -> Seq<u8> {
    tdf_list_start("NLST"@, ElementType::Group, 1) + encode_all(seq![spec_online_access()])
}

/// Component 1, command 29: replies with the account's entitlements.
pub fn list_entitlments(packet: &Packet) -> (r: Packet)
    ensures
        r@ == reply_view(packet@, entitlements_bytes()),
{
    let body = ListEntitlementsResponse { list: entitlements() };
    Packet::reply(packet, body)
}

/// Component 9, command 28: acknowledges with an empty reply.
pub fn set_client_state(packet: &Packet) -> (r: Packet)
    ensures
        r@ == reply_view(packet@, Seq::empty()),
{
    Packet::reply_empty(packet)
}

/// Component 9, command 22: acknowledges with an empty reply.
pub fn set_client_metrics(packet: &Packet) -> (r: Packet)
    ensures
        r@ == reply_view(packet@, Seq::empty()),
{
    Packet::reply_empty(packet)
}

/// A reply together with a notification to push to the same client.
pub struct NotifiedReply {
    pub notification: Packet,
    pub reply: Packet,
}

/// Error code of a request that needs a logged-in user on a session
/// without one.
pub const NO_USER_ERROR: u16 = 1;

/// Component 30722, command 20: without a logged-in user the request fails
/// with error code 1; otherwise the session key of the user is validated by
/// a notification (component 30722, command 1) and the request gets an empty
/// reply.
pub fn update_network_info(user: Option<Arc<User>>, packet: &Packet) -> (r: Result<
    NotifiedReply,
    u16,
>)
    ensures
        match user {
            None => r == Err::<NotifiedReply, u16>(NO_USER_ERROR) && r == Err::<NotifiedReply, u16>(
                1u16,
            ),
            Some(u) => r matches Ok(out) && out.notification@ == (PacketView {
                frame: Fire2Frame {
                    component: 30722,
                    command: 1,
                    msg_num: 0,
                    msg_type: MessageType::Notification,
                },
                metadata: Seq::empty(),
                contents: (ValidateSessionKey { user: u }).encoded(),
            }) && out.reply@ == reply_view(packet@, Seq::empty()),
        },
{
    match user {
        None => Err(NO_USER_ERROR),
        Some(user) => {
            let notification = Packet::notification(30722, 1, ValidateSessionKey { user });
            Ok(NotifiedReply { notification, reply: Packet::reply_empty(packet) })
        },
    }
}

/// The service addresses that the `PamplonaEndpoints` configuration carries.
pub struct EndpointUrls {
    pub gateway_api: String,
    pub gateway_upload: String,
    pub engagement_api: String,
}

/// The text of a list of configuration entries.
pub open spec fn entries_view(v: Seq<(String, String)>) -> Seq<(Seq<char>, Seq<char>)> {
    v.map_values(|e: (String, String)| (e.0@, e.1@))
}

/// The `IdentityParams` configuration.
pub open spec fn identity_params() -> Seq<(Seq<char>, Seq<char>)> {
    seq![("display"@, "console2/welcome"@), ("redirect_uri"@, "http://127.0.0.1/success"@)]
}

/// The `PamplonaEndpoints` configuration for the given service addresses,
/// in key order.
pub open spec fn pamplona_endpoints(urls: EndpointUrls) -> Seq<(Seq<char>, Seq<char>)> {
    seq![
        ("bugSentryDisableCrashDumpCollection"@, "true"@),
        ("bugSentryDisableGpuHangReports"@, "true"@),
        ("engagementManagerApiEndpointUrlBase"@, urls.engagement_api@),
        ("engagementManagerClientId"@, "mirrorsedgecatalyst"@),
        ("gatewayApiEndpointUrl"@, urls.gateway_api@),
        ("gatewayClientId"@, "pamplona-backend-as-user-pc"@),
        ("gatewayUploadEndpointUrl"@, urls.gateway_upload@),
        ("messageManagerFetchMessagesIntervalTime"@, "300.0"@),
        ("messageManagerTransientMessagesToFollowers"@, "false"@),
        ("npsWebUrlBase"@, "https://nps.pulse.ea.com"@),
        ("presenceUpdatePositionInterval"@, "10.0"@),
        ("telemetryProjectId"@, "308903"@),
    ]
}

/// The client configuration named `id`, as entries in key order:
/// `IdentityParams` and `PamplonaEndpoints` are known, any other name gives
/// no entries.
pub fn client_config(id: &String, urls: &EndpointUrls) -> (r: Vec<(String, String)>)
    ensures
        entries_view(r@) == (if id@ == "IdentityParams"@ {
            identity_params()
        } else if id@ == "PamplonaEndpoints"@ {
            pamplona_endpoints(*urls)
        } else {
            Seq::empty()
        }),
{
    if *id == "IdentityParams".to_owned() {
        let r = vec![
            ("display".to_owned(), "console2/welcome".to_owned()),
            ("redirect_uri".to_owned(), "http://127.0.0.1/success".to_owned()),
        ];
        assert(entries_view(r@) =~= identity_params());
        r
    } else if *id == "PamplonaEndpoints".to_owned() {
        let r = vec![
            ("bugSentryDisableCrashDumpCollection".to_owned(), "true".to_owned()),
            ("bugSentryDisableGpuHangReports".to_owned(), "true".to_owned()),
            ("engagementManagerApiEndpointUrlBase".to_owned(), urls.engagement_api.clone()),
            ("engagementManagerClientId".to_owned(), "mirrorsedgecatalyst".to_owned()),
            ("gatewayApiEndpointUrl".to_owned(), urls.gateway_api.clone()),
            ("gatewayClientId".to_owned(), "pamplona-backend-as-user-pc".to_owned()),
            ("gatewayUploadEndpointUrl".to_owned(), urls.gateway_upload.clone()),
            ("messageManagerFetchMessagesIntervalTime".to_owned(), "300.0".to_owned()),
            ("messageManagerTransientMessagesToFollowers".to_owned(), "false".to_owned()),
            ("npsWebUrlBase".to_owned(), "https://nps.pulse.ea.com".to_owned()),
            ("presenceUpdatePositionInterval".to_owned(), "10.0".to_owned()),
            ("telemetryProjectId".to_owned(), "308903".to_owned()),
        ];
        assert(entries_view(r@) =~= pamplona_endpoints(*urls));
        r
    } else {
        let r: Vec<(String, String)> = Vec::new();
        assert(entries_view(r@) =~= Seq::empty());
        r
    }
}


/// The view of a notification for `component`/`command` carrying `contents`.
pub open spec fn notification_view(component: u16, command: u16, contents: Seq<u8>) -> PacketView {
    PacketView {
        frame: Fire2Frame { component, command, msg_num: 0, msg_type: MessageType::Notification },
        metadata: Seq::empty(),
        contents,
    }
}

/// Component 9, command 8: after authentication the logged-in user's client
/// is sent, in this order, the extended data attribute (component 30722,
/// command 5) and the extended session data (component 30722, command 2) of
/// `user`.
pub fn post_auth_notifications(user: Arc<User>) -> (r: Vec<Packet>)
    ensures
        r.len() == 2,
        r[0]@ == notification_view(
            30722,
            5,
            (UpdateExtendedDataAttribute { user }).encoded(),
        ),
        r[1]@ == notification_view(30722, 2, (UserSessionExtendedData { user }).encoded()),
{
    let first = Packet::notification(30722, 5, UpdateExtendedDataAttribute { user: user.clone() });
    let second = Packet::notification(30722, 2, UserSessionExtendedData { user });
    vec![first, second]
}

/// The `IdentityParams` configuration sends the welcome display and the
/// local success redirect; the `PamplonaEndpoints` configuration holds, in
/// key order, the twelve entries below: crash dump and GPU hang reports
/// disabled, the engagement, gateway and upload addresses given, the fixed
/// client ids, message and presence intervals, the NPS address and the
/// telemetry project.
pub proof fn lemma_client_config_values(urls: EndpointUrls)
    ensures
        identity_params().len() == 2,
        identity_params()[0] == ("display"@, "console2/welcome"@),
        identity_params()[1] == ("redirect_uri"@, "http://127.0.0.1/success"@),
        pamplona_endpoints(urls).len() == 12,
        pamplona_endpoints(urls)[0] == ("bugSentryDisableCrashDumpCollection"@, "true"@),
        pamplona_endpoints(urls)[1] == ("bugSentryDisableGpuHangReports"@, "true"@),
        pamplona_endpoints(urls)[2] == ("engagementManagerApiEndpointUrlBase"@, urls.engagement_api@),
        pamplona_endpoints(urls)[3] == ("engagementManagerClientId"@, "mirrorsedgecatalyst"@),
        pamplona_endpoints(urls)[4] == ("gatewayApiEndpointUrl"@, urls.gateway_api@),
        pamplona_endpoints(urls)[5] == ("gatewayClientId"@, "pamplona-backend-as-user-pc"@),
        pamplona_endpoints(urls)[6] == ("gatewayUploadEndpointUrl"@, urls.gateway_upload@),
        pamplona_endpoints(urls)[7] == ("messageManagerFetchMessagesIntervalTime"@, "300.0"@),
        pamplona_endpoints(urls)[8] == ("messageManagerTransientMessagesToFollowers"@, "false"@),
        pamplona_endpoints(urls)[9] == ("npsWebUrlBase"@, "https://nps.pulse.ea.com"@),
        pamplona_endpoints(urls)[10] == ("presenceUpdatePositionInterval"@, "10.0"@),
        pamplona_endpoints(urls)[11] == ("telemetryProjectId"@, "308903"@),
{
}

} // verus!

//! Login (component 1, command 10): a Discord access token is checked, the
//! matching account is found or created, and the session user is set.
//!
//! The exchanges with Discord and with the database happen outside the
//! library. The login is driven as a state machine: `login_start` reads the
//! request, and each `login_step` takes the outcome of the last requested
//! exchange and names the next one, until the login finishes or fails.
use crate::models::authentication::{AuthRequest, AuthResponse};
use crate::models::user_sessions::UpdateHardwareFlags;
use crate::oauth::{DiscordUser, OAuthError};
use crate::packet::{Fire2Frame, MessageType, Packet, PacketView};
use crate::routes::reply_view;
use crate::session::{SessionData, User};
use crate::tdf_in::{tdf_find_string, tdf_reader_bounded};
use crate::tdf_out::TdfEncode;
use std::sync::Arc;
use vstd::prelude::*;

verus! {

/// Error code of a failed login.
pub const LOGIN_ERROR: u16 = 1;

/// What login does with the stored account of a Discord user.
pub enum AccountPlan {
    /// The account exists; `rename` tells whether the stored provider
    /// username differs from the current Discord username and is updated.
    Existing { persona_id: i64, rename: bool },
    /// There is no account yet: a user and an account are created.
    Create,
}

/// Decides what login does with the stored account (persona id and stored
/// provider username) of the Discord user named `discord_username`.
pub fn plan_account(stored: Option<(i64, String)>, discord_username: &String) -> (r: AccountPlan)
    ensures
        match stored {
            None => r is Create,
            Some(a) => r matches AccountPlan::Existing { persona_id, rename } && persona_id == a.0
                && rename == (a.1@ != discord_username@),
        },
{
    match stored {
        None => AccountPlan::Create,
        Some((persona_id, provider_username)) => AccountPlan::Existing {
            persona_id,
            rename: provider_username != *discord_username,
        },
    }
}

/// The result of a successful login: the session user, the notification
/// that updates the client's hardware flags, and the reply to the request.
pub struct LoginSuccess {
    pub user: Arc<User>,
    pub notification: Packet,
    pub reply: Packet,
}

/// Component 1, command 10, after the account is known: the session user is
/// set to the persona (its id, cut to 32 bits, serving as user id too) with
/// the local user name; the client is notified (component 30722, command 8)
/// of its hardware flags and the request gets the login response.
pub fn login_success(
    data: &mut SessionData,
    packet: &Packet,
    persona_id: i64,
    username: String,
) -> (r: LoginSuccess)
    ensures
        final(data)@ == Some(*r.user),
        *r.user == (User {
            user_id: persona_id as u32,
            username,
            persona_id: persona_id as u32,
        }),
        r.notification@ == (PacketView {
            frame: Fire2Frame {
                component: 30722,
                command: 8,
                msg_num: 0,
                msg_type: MessageType::Notification,
            },
            metadata: Seq::empty(),
            contents: (UpdateHardwareFlags { user: r.user }).encoded(),
        }),
        r.reply@ == reply_view(packet@, (AuthResponse { user: r.user }).encoded()),
{
    let user = Arc::new(
        User { user_id: persona_id as u32, persona_id: persona_id as u32, username },
    );
    let notification = Packet::notification(
        30722,
        8,
        UpdateHardwareFlags { user: user.clone() },
    );
    let reply = Packet::reply(packet, AuthResponse { user: user.clone() });
    data.set_user(user.clone());
    LoginSuccess { user, notification, reply }
}

/// The provider name under which Discord accounts are stored.
pub open spec fn discord_provider() -> Seq<char> {
    "discord"@
}

/// The provider name under which Discord accounts are stored.
pub fn provider_name() -> (s: String)
    ensures
        s@ == discord_provider(),
        s@ == "discord"@,
{
    "discord".to_owned()
}

/// The record stored for a new local user. `stats` holds the entries of its
/// statistics object; its ghost data holds `ghost_variation` together with
/// the time at which the record is stored.
pub struct NewUser {
    pub name: String,
    pub stats: Vec<(String, String)>,
    pub division_name: String,
    pub division_rank: i32,
    pub ghost_variation: u64,
    pub background_tag: String,
    pub detail_tag: String,
    pub frame_tag: String,
}

/// Whether `u` is the record of a new local user named `name`: no
/// statistics, division "Copper", rank 5, ghost variation 244578012 and the
/// default background, detail and frame tags.
pub open spec fn is_new_user(u: NewUser, name: Seq<char>) -> bool {
    &&& u.name@ == name
    &&& u.stats@.len() == 0
    &&& u.division_name@ == "Copper"@
    &&& u.division_rank == 5
    &&& u.ghost_variation == 244578012
    &&& u.background_tag@ == "2556762952"@
    &&& u.detail_tag@ == "1514008114"@
    &&& u.frame_tag@ == "3049936381"@
}

/// The record of a new local user named `name`.
pub fn new_user(name: String) -> (u: NewUser)
    ensures
        is_new_user(u, name@),
        u.name@ == name@,
        u.stats@.len() == 0,
        u.division_name@ == "Copper"@,
        u.division_rank == 5,
        u.ghost_variation == 244578012,
        u.background_tag@ == "2556762952"@,
        u.detail_tag@ == "1514008114"@,
        u.frame_tag@ == "3049936381"@,
{
    NewUser {
        name,
        stats: Vec::new(),
        division_name: "Copper".to_owned(),
        division_rank: 5,
        ghost_variation: 244578012,
        background_tag: "2556762952".to_owned(),
        detail_tag: "1514008114".to_owned(),
        frame_tag: "3049936381".to_owned(),
    }
}

/// Where a login stands, waiting for the outcome of an exchange.
pub enum LoginState {
    /// Waiting for Discord's verdict on the access token.
    Authenticating,
    /// Waiting for the account of the Discord user.
    FindingAccount { discord: DiscordUser },
    /// Waiting for the stored provider username to be updated.
    Renaming { discord: DiscordUser, persona_id: i64 },
    /// Waiting for the local user of the account.
    FindingUser { discord: DiscordUser, persona_id: i64 },
    /// Waiting for a new local user to be stored.
    CreatingUser { discord: DiscordUser },
    /// Waiting for a new account to be stored for the new local user.
    CreatingAccount { discord: DiscordUser, persona_id: i64, name: String },
}

/// The outcome of an exchange; `E` is the database's error.
pub enum LoginEvent<E> {
    /// Discord's verdict on the token.
    DiscordChecked(Result<DiscordUser, OAuthError>),
    /// The stored account (persona id, provider username), if any.
    AccountFound(Result<Option<(i64, String)>, E>),
    /// The provider username was updated.
    UsernameUpdated(Result<(), E>),
    /// The name of the local user with the persona id, if any.
    UserFound(Result<Option<String>, E>),
    /// The new local user was stored, with its persona id and name.
    UserInserted(Result<(i64, String), E>),
    /// The new account was stored.
    AccountInserted(Result<(), E>),
}

/// The exchange a login needs next, or its end.
pub enum LoginAction {
    /// Ask Discord about the access token.
    CheckToken { token: String },
    /// Look up the account with this provider and provider user id.
    FindAccount { provider: String, provider_user_id: String },
    /// Store the current Discord username for the account of the persona.
    UpdateUsername { persona_id: i64, username: String },
    /// Look up the local user with the persona id.
    FindUser { persona_id: i64 },
    /// Store this new local user.
    InsertUser { user: NewUser },
    /// Store a new account of the provider for the persona.
    InsertAccount {
        persona_id: i64,
        provider: String,
        provider_user_id: String,
        provider_username: String,
    },
    /// The login succeeded for the persona and local user name; finish it
    /// with `login_success`.
    Finish { persona_id: i64, username: String },
    /// The login failed with the error code.
    Fail(u16),
}

/// Whether `event` answers the exchange that `state` waits for.
pub open spec fn answers<E>(state: LoginState, event: LoginEvent<E>) -> bool {
    match state {
        LoginState::Authenticating => event is DiscordChecked,
        LoginState::FindingAccount { .. } => event is AccountFound,
        LoginState::Renaming { .. } => event is UsernameUpdated,
        LoginState::FindingUser { .. } => event is UserFound,
        LoginState::CreatingUser { .. } => event is UserInserted,
        LoginState::CreatingAccount { .. } => event is AccountInserted,
    }
}

/// Starts a login: the request must carry an access token, which is then
/// checked with Discord; without one, or with contents that are not handed
/// to the reader, the login fails.
pub fn login_start(packet: &Packet) -> (r: (Option<LoginState>, LoginAction))
    ensures
        if !tdf_reader_bounded(packet@.contents) {
            r.0 is None && r.1 == LoginAction::Fail(LOGIN_ERROR)
        } else {
            match tdf_find_string(packet@.contents, "AUTH"@) {
                None => r.0 is None && r.1 == LoginAction::Fail(LOGIN_ERROR),
                Some(t) => r.0 == Some(LoginState::Authenticating) && (r.1 matches LoginAction::CheckToken {
                    token,
                } && token@ == t),
            }
        },
        r.1 is Fail ==> r.1 == LoginAction::Fail(1u16),
{
    match AuthRequest::deserialize(packet) {
        Ok(req) => (Some(LoginState::Authenticating), LoginAction::CheckToken { token: req.token }),
        Err(_) => (None, LoginAction::Fail(LOGIN_ERROR)),
    }
}

/// One step of a login: the outcome of the exchange that `state` waited for
/// decides the next state and exchange. Every failed exchange, and a
/// missing local user, fails the login. An existing account whose stored
/// provider username differs from the Discord username is renamed first;
/// a Discord user without an account gets a new local user named after it
/// and a new account.
pub fn login_step<E>(state: LoginState, event: LoginEvent<E>) -> (r: (Option<LoginState>, LoginAction))
    requires
        answers(state, event),
    ensures
        match (state, event) {
            (LoginState::Authenticating, LoginEvent::DiscordChecked(Err(_))) => r == (
            None::<LoginState>, LoginAction::Fail(LOGIN_ERROR)),
            (LoginState::Authenticating, LoginEvent::DiscordChecked(Ok(u))) => r.0 == Some(
                LoginState::FindingAccount { discord: u },
            ) && (r.1 matches LoginAction::FindAccount { provider, provider_user_id } && provider@
                == discord_provider() && provider_user_id == u.id),
            (LoginState::FindingAccount { .. }, LoginEvent::AccountFound(Err(_))) => r == (
            None::<LoginState>, LoginAction::Fail(LOGIN_ERROR)),
            (LoginState::FindingAccount { discord }, LoginEvent::AccountFound(Ok(None))) => r.0
                == Some(LoginState::CreatingUser { discord }) && (r.1 matches LoginAction::InsertUser {
                user,
            } && is_new_user(user, discord.username@)),
            (LoginState::FindingAccount { discord }, LoginEvent::AccountFound(Ok(Some(a)))) =>
                if a.1@ != discord.username@ {
                    r == (Some(LoginState::Renaming { discord, persona_id: a.0 }), LoginAction::UpdateUsername { persona_id: a.0, username: discord.username })
                } else {
                    r == (Some(LoginState::FindingUser { discord, persona_id: a.0 }), LoginAction::FindUser { persona_id: a.0 })
                },
            (LoginState::Renaming { .. }, LoginEvent::UsernameUpdated(Err(_))) => r == (
            None::<LoginState>, LoginAction::Fail(LOGIN_ERROR)),
            (LoginState::Renaming { discord, persona_id }, LoginEvent::UsernameUpdated(Ok(_))) => r == (
            Some(LoginState::FindingUser { discord, persona_id }), LoginAction::FindUser { persona_id }),
            (LoginState::FindingUser { persona_id, .. }, LoginEvent::UserFound(Ok(Some(name)))) => r == (
            None::<LoginState>, LoginAction::Finish { persona_id, username: name }),
            (LoginState::FindingUser { .. }, LoginEvent::UserFound(_)) => r == (
            None::<LoginState>, LoginAction::Fail(LOGIN_ERROR)),
            (LoginState::CreatingUser { .. }, LoginEvent::UserInserted(Err(_))) => r == (
            None::<LoginState>, LoginAction::Fail(LOGIN_ERROR)),
            (LoginState::CreatingUser { discord }, LoginEvent::UserInserted(Ok(created))) => r.0
                == Some(
                LoginState::CreatingAccount { discord, persona_id: created.0, name: created.1 },
            ) && (r.1 matches LoginAction::InsertAccount {
                persona_id,
                provider,
                provider_user_id,
                provider_username,
            } && persona_id == created.0 && provider@ == discord_provider() && provider_user_id
                == discord.id && provider_username == discord.username),
            (LoginState::CreatingAccount { .. }, LoginEvent::AccountInserted(Err(_))) => r == (
            None::<LoginState>, LoginAction::Fail(LOGIN_ERROR)),
            (LoginState::CreatingAccount { persona_id, name, .. }, LoginEvent::AccountInserted(Ok(_))) => r == (
            None::<LoginState>, LoginAction::Finish { persona_id, username: name }),
            _ => false,
        },
        r.1 is Fail ==> r.1 == LoginAction::Fail(1u16),
{
    match state {
        LoginState::Authenticating => match event {
            LoginEvent::DiscordChecked(Ok(discord)) => {
                let provider_user_id = discord.id.clone();
                (
                    Some(LoginState::FindingAccount { discord }),
                    LoginAction::FindAccount { provider: provider_name(), provider_user_id },
                )
            },
            _ => (None, LoginAction::Fail(LOGIN_ERROR)),
        },
        LoginState::FindingAccount { discord } => match event {
            LoginEvent::AccountFound(Ok(stored)) => match plan_account(stored, &discord.username) {
                AccountPlan::Existing { persona_id, rename } => {
                    if rename {
                        let username = discord.username.clone();
                        (Some(LoginState::Renaming { discord, persona_id }), LoginAction::UpdateUsername { persona_id, username })
                    } else {
                        (Some(LoginState::FindingUser { discord, persona_id }), LoginAction::FindUser { persona_id })
                    }
                },
                AccountPlan::Create => {
                    let name = discord.username.clone();
                    (
                        Some(LoginState::CreatingUser { discord }),
                        LoginAction::InsertUser { user: new_user(name) },
                    )
                },
            },
            _ => (None, LoginAction::Fail(LOGIN_ERROR)),
        },
        LoginState::Renaming { discord, persona_id } => match event {
            LoginEvent::UsernameUpdated(Ok(_)) => (Some(LoginState::FindingUser { discord, persona_id }), LoginAction::FindUser { persona_id }),
            _ => (None, LoginAction::Fail(LOGIN_ERROR)),
        },
        LoginState::FindingUser { discord, persona_id } => match event {
            LoginEvent::UserFound(Ok(Some(name))) => (None, LoginAction::Finish { persona_id, username: name }),
            _ => (None, LoginAction::Fail(LOGIN_ERROR)),
        },
        LoginState::CreatingUser { discord } => match event {
            LoginEvent::UserInserted(Ok((persona_id, name))) => {
                let provider_user_id = discord.id.clone();
                let provider_username = discord.username.clone();
                (Some(LoginState::CreatingAccount { discord, persona_id, name }), LoginAction::InsertAccount {
                    persona_id,
                    provider: provider_name(),
                    provider_user_id,
                    provider_username,
                })
            },
            _ => (None, LoginAction::Fail(LOGIN_ERROR)),
        },
        LoginState::CreatingAccount { discord, persona_id, name } => match event {
            LoginEvent::AccountInserted(Ok(_)) => (None, LoginAction::Finish { persona_id, username: name }),
            _ => (None, LoginAction::Fail(LOGIN_ERROR)),
        },
    }
}

} // verus!

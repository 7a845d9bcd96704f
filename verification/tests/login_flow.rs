use bytes::Bytes;
use pamplona::login::{login_start, login_step, LoginAction, LoginEvent, LoginState, LOGIN_ERROR};
use pamplona::oauth::{DiscordUser, OAuthError};
use pamplona::packet::{Fire2Frame, MessageType, Packet};
use tdf::TdfSerializer;

fn request(contents: Vec<u8>) -> Packet {
    Packet::new(
        Fire2Frame {
            component: 1,
            command: 10,
            msg_num: 3,
            msg_type: MessageType::Message,
        },
        Bytes::new(),
        Bytes::from(contents),
    )
}

fn discord() -> DiscordUser {
    DiscordUser {
        id: "123".to_string(),
        username: "faith".to_string(),
    }
}

type Ev = LoginEvent<&'static str>;

#[test]
fn start_asks_discord_about_the_token() {
    let mut contents = Vec::new();
    contents.tag_str(b"AUTH", "tok");
    let (state, action) = login_start(&request(contents));
    assert!(matches!(state, Some(LoginState::Authenticating)));
    assert!(matches!(action, LoginAction::CheckToken { token } if token == "tok"));
}

#[test]
fn start_without_token_fails() {
    let (state, action) = login_start(&request(vec![]));
    assert!(state.is_none());
    assert!(matches!(action, LoginAction::Fail(1)));
    assert_eq!(LOGIN_ERROR, 1);
}

#[test]
fn rejected_token_fails() {
    let (state, action) = login_step(
        LoginState::Authenticating,
        Ev::DiscordChecked(Err(OAuthError::ExpiredToken)),
    );
    assert!(state.is_none());
    assert!(matches!(action, LoginAction::Fail(1)));
}

#[test]
fn known_account_with_same_name_looks_up_user() {
    let (state, action) = login_step(LoginState::Authenticating, Ev::DiscordChecked(Ok(discord())));
    assert!(matches!(
        action,
        LoginAction::FindAccount { ref provider, ref provider_user_id }
            if provider == "discord" && provider_user_id == "123"
    ));
    let (state, action) = login_step(
        state.unwrap(),
        Ev::AccountFound(Ok(Some((77, "faith".to_string())))),
    );
    assert!(matches!(action, LoginAction::FindUser { persona_id: 77 }));
    let (state, action) = login_step(state.unwrap(), Ev::UserFound(Ok(Some("Faith".to_string()))));
    assert!(state.is_none());
    assert!(matches!(action, LoginAction::Finish { persona_id: 77, ref username } if username == "Faith"));
}

#[test]
fn renamed_discord_user_updates_account_first() {
    let state = LoginState::FindingAccount { discord: discord() };
    let (state, action) = login_step(state, Ev::AccountFound(Ok(Some((77, "kate".to_string())))));
    assert!(matches!(action, LoginAction::UpdateUsername { persona_id: 77, ref username } if username == "faith"));
    let (state, action) = login_step(state.unwrap(), Ev::UsernameUpdated(Ok(())));
    assert!(matches!(action, LoginAction::FindUser { persona_id: 77 }));
    let (_, action) = login_step(state.unwrap(), Ev::UserFound(Ok(None)));
    assert!(matches!(action, LoginAction::Fail(1)));
}

#[test]
fn new_discord_user_gets_user_and_account() {
    let state = LoginState::FindingAccount { discord: discord() };
    let (state, action) = login_step(state, Ev::AccountFound(Ok(None)));
    match &action {
        LoginAction::InsertUser { user } => {
            assert_eq!(user.name, "faith");
            assert!(user.stats.is_empty());
            assert_eq!(user.division_name, "Copper");
            assert_eq!(user.division_rank, 5);
            assert_eq!(user.ghost_variation, 244578012);
            assert_eq!(
                (user.background_tag.as_str(), user.detail_tag.as_str(), user.frame_tag.as_str()),
                ("2556762952", "1514008114", "3049936381")
            );
        }
        _ => panic!("expected a new user"),
    }
    let (state, action) = login_step(state.unwrap(), Ev::UserInserted(Ok((9, "faith".to_string()))));
    assert!(matches!(
        action,
        LoginAction::InsertAccount { persona_id: 9, ref provider, ref provider_user_id, ref provider_username }
            if provider == "discord" && provider_user_id == "123" && provider_username == "faith"
    ));
    let (state, action) = login_step(state.unwrap(), Ev::AccountInserted(Ok(())));
    assert!(state.is_none());
    assert!(matches!(action, LoginAction::Finish { persona_id: 9, ref username } if username == "faith"));
}

#[test]
fn database_errors_fail_the_login() {
    let (_, a) = login_step(LoginState::FindingAccount { discord: discord() }, Ev::AccountFound(Err("db")));
    assert!(matches!(a, LoginAction::Fail(1)));
    let (_, a) = login_step(
        LoginState::Renaming { discord: discord(), persona_id: 1 },
        Ev::UsernameUpdated(Err("db")),
    );
    assert!(matches!(a, LoginAction::Fail(1)));
    let (_, a) = login_step(
        LoginState::FindingUser { discord: discord(), persona_id: 1 },
        Ev::UserFound(Err("db")),
    );
    assert!(matches!(a, LoginAction::Fail(1)));
    let (_, a) = login_step(LoginState::CreatingUser { discord: discord() }, Ev::UserInserted(Err("db")));
    assert!(matches!(a, LoginAction::Fail(1)));
    let (_, a) = login_step(
        LoginState::CreatingAccount { discord: discord(), persona_id: 1, name: "n".to_string() },
        Ev::AccountInserted(Err("db")),
    );
    assert!(matches!(a, LoginAction::Fail(1)));
}

#[test]
fn start_with_unbounded_contents_fails() {
    let (state, action) = login_start(&request(vec![0xFF; 20]));
    assert!(state.is_none());
    assert!(matches!(action, LoginAction::Fail(1)));
}

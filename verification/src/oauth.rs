//! Checking a Discord OAuth2 access token.
//!
//! The HTTP exchange with Discord happens outside the library; these
//! functions decide, from the status code and the decoded `/oauth2/@me`
//! answer, whether the token is accepted and which user it belongs to.
use vstd::prelude::*;

verus! {

/// The error of a failed HTTP exchange.
#[verifier::external_type_specification]
#[verifier::external_body]
pub struct ExReqwestError(reqwest::Error);

/// Why a token was not accepted.
pub enum OAuthError {
    /// The request to Discord failed or its answer did not decode.
    Request(reqwest::Error),
    /// Discord answered with a non-success HTTP status.
    InvalidToken(u16),
    /// No client id was configured to compare against.
    MissingClientId,
    /// The token was issued to another application.
    InvalidClientId,
    /// The token has expired.
    ExpiredToken,
}

/// A Discord user.
#[derive(Debug)]
pub struct DiscordUser {
    pub id: String,
    pub username: String,
}

/// The Discord application a token was issued to.
#[derive(Debug)]
pub struct DiscordApplication {
    pub id: String,
}

/// A UTC instant: seconds since the Unix epoch and the nanoseconds within
/// that second.
#[derive(Debug, Clone, Copy, PartialEq, Eq, Structural)]
pub struct UtcTime {
    pub secs: i64,
    pub nanos: u32,
}

/// Whether `a` is strictly earlier than `b`.
pub open spec fn spec_earlier(a: UtcTime, b: UtcTime) -> bool {
    a.secs < b.secs || (a.secs == b.secs && a.nanos < b.nanos)
}

/// Whether `a` is strictly earlier than `b`.
pub fn earlier(a: UtcTime, b: UtcTime) -> (r: bool)
    ensures
        r == spec_earlier(a, b),
        a.secs < b.secs ==> r,
        a.secs > b.secs ==> !r,
        a.nanos < 1_000_000_000 && b.nanos < 1_000_000_000 ==> (r <==> a.secs * 1_000_000_000
            + a.nanos < b.secs * 1_000_000_000 + b.nanos),
{
    a.secs < b.secs || (a.secs == b.secs && a.nanos < b.nanos)
}

/// Discord's description of an access token.
#[derive(Debug)]
pub struct OAuth2MeResponse {
    pub application: DiscordApplication,
    pub user: DiscordUser,
    pub expires: UtcTime,
}

/// Whether an HTTP status is a success (2xx).
pub open spec fn is_success(status: u16) -> bool {
    200 <= status <= 299
}

/// First check of a token: Discord must answer with a success status;
/// otherwise the token is rejected with that status.
pub fn check_status(status: u16) -> (r: Result<(), OAuthError>)
    ensures
        is_success(status) ==> r is Ok,
        !is_success(status) ==> (r matches Err(OAuthError::InvalidToken(s)) && s == status),
        200 <= status <= 299 <==> r is Ok,
        status < 200 || status > 299 ==> r == Err::<(), OAuthError>(OAuthError::InvalidToken(status)),
{
    if !(200 <= status && status <= 299) {
        return Err(OAuthError::InvalidToken(status));
    }
    Ok(())
}

/// Second check of a token, on Discord's description of it: a client id
/// must be configured, the token must be issued to that client, and it must
/// not have expired at `now`; then the token's user is returned. The checks
/// come in that order, and the first that fails decides the error.
pub fn check_token(me: OAuth2MeResponse, expected_client_id: Option<String>, now: UtcTime) -> (r:
    Result<DiscordUser, OAuthError>)
    ensures
        match expected_client_id {
            None => r matches Err(OAuthError::MissingClientId),
            Some(id) => if me.application.id@ != id@ {
                r matches Err(OAuthError::InvalidClientId)
            } else if spec_earlier(me.expires, now) {
                r matches Err(OAuthError::ExpiredToken)
            } else {
                r matches Ok(u) && u == me.user
            },
        },
        expected_client_id matches Some(id) && me.application.id@ == id@ && me.expires.secs
            > now.secs ==> (r matches Ok(u) && u == me.user),
        expected_client_id matches Some(id) && me.application.id@ == id@ && me.expires.secs
            < now.secs ==> r matches Err(OAuthError::ExpiredToken),
        expected_client_id matches Some(id) && me.application.id@ == id@ && me.expires == now ==> (
        r matches Ok(u) && u == me.user),
{
    let expected = match expected_client_id {
        Some(id) => id,
        None => {
            return Err(OAuthError::MissingClientId);
        },
    };
    if me.application.id != expected {
        return Err(OAuthError::InvalidClientId);
    }
    if earlier(me.expires, now) {
        return Err(OAuthError::ExpiredToken);
    }
    Ok(me.user)
}

/// `spec_earlier` is the chronological order of instants: for instants in
/// normal form (fewer than 10^9 nanoseconds) it compares the nanoseconds
/// since the epoch, and whatever the nanoseconds (chrono keeps up to
/// 2 * 10^9 - 1 within a leap second), an instant in an earlier second is
/// earlier and one in a later second is not. No instant is earlier than
/// itself.
pub proof fn lemma_earlier_is_chronological(a: UtcTime, b: UtcTime)
    ensures
        a.nanos < 1_000_000_000 && b.nanos < 1_000_000_000 ==> (spec_earlier(a, b) <==> a.secs
            * 1_000_000_000 + a.nanos < b.secs * 1_000_000_000 + b.nanos),
        a.secs < b.secs ==> spec_earlier(a, b),
        a.secs > b.secs ==> !spec_earlier(a, b),
        !spec_earlier(a, a),
        spec_earlier(a, b) ==> !spec_earlier(b, a),
{
}

/// A token from the configured client whose expiry lies in a later second
/// than `now`, or at `now` itself, is not rejected as expired.
pub proof fn lemma_later_expiry_not_expired(expires: UtcTime, now: UtcTime)
    ensures
        expires.secs > now.secs ==> !spec_earlier(expires, now),
        !spec_earlier(now, now),
        spec_earlier(expires, now) ==> expires.secs <= now.secs,
{
}

} // verus!

//! What an accepted credential says about its bearer.

use vstd::prelude::*;

verus! {

/// The claims of a session token.
///
/// The names of the fields are those of the token, not of what they carry:
/// `sub` is the stable identity of the user, its e-mail address, under which
/// its session is registered; `email` is the display name under which the user
/// takes part in chats and friendships.
#[derive(Debug, Clone, PartialEq, Eq)]
pub struct Claims {
    pub sub: String,
    pub exp: usize,
    pub email: String,
}

/// The claims of a token that confirms an e-mail address.
#[derive(Debug, Clone, PartialEq, Eq)]
pub struct EmailVerify {
    pub sub: String,
    pub exp: usize,
    pub email: String,
}

/// The seconds for which a session token is good: one day.
pub const SESSION_LIFETIME_SECS: i64 = 86_400;

/// The seconds for which a token that confirms an e-mail address is good: one
/// hour.
pub const CONFIRMATION_LIFETIME_SECS: i64 = 3_600;

/// The time at which a token issued at `now` for `lifetime` seconds expires,
/// in seconds since the epoch; `None` where that time lies before the epoch
/// or beyond what a timestamp or a token can hold.
pub open spec fn expiry(now: i64, lifetime: i64) -> Option<usize> {
    if 0 <= now + lifetime <= i64::MAX && now + lifetime <= usize::MAX {
        Some((now + lifetime) as usize)
    } else {
        None
    }
}

/// Computes the time at which a token expires.
pub fn expires_at(now: i64, lifetime: i64) -> (at: Option<usize>)
    ensures
        at == expiry(now, lifetime),
{
    match now.checked_add(lifetime) {
        Some(at) => {
            if at < 0 {
                None
            } else if at as u64 > usize::MAX as u64 {
                None
            } else {
                Some(at as usize)
            }
        },
        None => None,
    }
}

impl Claims {
    /// The claims of a session token issued at `now`, in seconds since the
    /// epoch, for the user with the identity `sub` and the display name
    /// `email`.
    pub fn issue(sub: String, email: String, now: i64) -> (claims: Option<Claims>)
        ensures
            match claims {
                Some(issued) => issued.sub == sub && issued.email == email && expiry(
                    now,
                    SESSION_LIFETIME_SECS,
                ) == Some(issued.exp),
                None => expiry(now, SESSION_LIFETIME_SECS) is None,
            },
    {
        match expires_at(now, SESSION_LIFETIME_SECS) {
            Some(exp) => Some(Claims { sub, exp, email }),
            None => None,
        }
    }
}

impl EmailVerify {
    /// The claims of a token that confirms an e-mail address, issued at `now`,
    /// in seconds since the epoch.
    pub fn issue(sub: String, email: String, now: i64) -> (claims: Option<EmailVerify>)
        ensures
            match claims {
                Some(issued) => issued.sub == sub && issued.email == email && expiry(
                    now,
                    CONFIRMATION_LIFETIME_SECS,
                ) == Some(issued.exp),
                None => expiry(now, CONFIRMATION_LIFETIME_SECS) is None,
            },
    {
        match expires_at(now, CONFIRMATION_LIFETIME_SECS) {
            Some(exp) => Some(EmailVerify { sub, exp, email }),
            None => None,
        }
    }
}

/// The authenticated user of one connection.
#[derive(Debug, Clone, PartialEq, Eq)]
pub struct Caller {
    /// The stable identity, under which the session is registered.
    pub email: String,
    /// The display name.
    pub username: String,
}

impl Caller {
    /// The user that a token's claims name.
    pub fn from_claims(claims: &Claims) -> (caller: Caller)
        ensures
            caller.email == claims.sub,
            caller.username == claims.email,
    {
        Caller { email: claims.sub.clone(), username: claims.email.clone() }
    }
}

} // verus!

//! Claims carried by an authentication token.
use vstd::prelude::*;
use crate::api::LoginInfo;
use crate::rooms::UserData;

verus! {

/// Seconds until a token expires: thirty days.
pub const VALIDITY_SECONDS: i64 = 2592000;

/// Relies on time's `OffsetDateTime::now_utc`, read as a Unix timestamp in
/// whole seconds. The crate represents years within ±999,999 at most, so
/// the value lies well inside the bound stated here.
#[verifier::external_body]
fn unix_now() -> (r: i64)
    ensures
        -100_000_000_000_000 <= r <= 100_000_000_000_000,
{
    time::OffsetDateTime::now_utc().unix_timestamp()
}

/// Token claims.
pub struct Claims {
    /// Issued at timestamp (seconds since the Unix epoch)
    pub issued_at: i64,
    /// Expiry timestamp (seconds since the Unix epoch)
    pub expiry: i64,
    /// User data
    pub user_data: UserData,
}

impl Claims {
    /// Claims for `user_data` issued at `now`, valid for `VALIDITY_SECONDS`.
    pub fn issued(user_data: UserData, now: i64) -> (r: Self)
        requires
            now <= i64::MAX - VALIDITY_SECONDS,
        ensures
            r.issued_at == now,
            r.expiry == now + VALIDITY_SECONDS,
            r.user_data == user_data,
    {
        Claims { issued_at: now, expiry: now + VALIDITY_SECONDS, user_data }
    }

    /// Claims for `user_data` issued now.
    pub fn new(user_data: UserData) -> (r: Self)
        ensures
            r.expiry == r.issued_at + VALIDITY_SECONDS,
            r.user_data == user_data,
    {
        let now = unix_now();
        Self::issued(user_data, now)
    }
}

/// Claims for a login request: `None` when the login is invalid (an empty
/// name), else claims for that name issued now.
pub fn login_claims(login_info: LoginInfo) -> (r: Option<Claims>)
    ensures
        r is Some <==> login_info.valid(),
        r matches Some(c) ==> c.user_data.name@ == login_info.username@ && c.expiry == c.issued_at
            + VALIDITY_SECONDS,
{
    if !login_info.is_valid() {
        return None;
    }
    let user_data = UserData::from(login_info);
    Some(Claims::new(user_data))
}

/// Claims of an authenticated request.
pub struct Authentication(pub Claims);

impl Authentication {
    /// The token to check: the bearer token of the `Authorization` header if
    /// there is one, else the authentication cookie.
    pub fn pick_token(bearer: Option<String>, cookie: Option<String>) -> (r: Option<String>)
        ensures
            r == (if bearer is Some { bearer } else { cookie }),
    {
        match bearer {
            Some(t) => Some(t),
            None => cookie,
        }
    }
}

} // verus!

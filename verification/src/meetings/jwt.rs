//! The tokens of the meeting service: an access token lives a number of days the caller
//! chooses, a refresh token thirty days; each is signed with its own secret.
use vstd::prelude::*;
use crate::auth::{decoded_from, expiry, JwtClaims, TIME_MAX, TIME_MIN};
use crate::outside::{jwt_decode, jwt_encode, jwt_hs256_token, now_unix_seconds};

verus! {

/// How many days a refresh token lives.
pub const REFRESH_TOKEN_DAYS: i64 = 30;

/// The expiry of a token issued at `now` that lives `days` days, when the lifetime fits in
/// an `i64` of seconds and a date-time can hold the expiry.
pub open spec fn days_expiry(now: int, days: int) -> Option<int> {
    if i64::MIN <= days * 86400 <= i64::MAX { expiry(now, days * 86400) } else { None }
}

/// Issues the tokens of the meeting service.
#[derive(Debug)]
pub struct JwtUtils {
    secret_key: String,
    refresh_secret_key: String,
}

impl JwtUtils {
    pub closed spec fn secret(&self) -> Seq<char> {
        self.secret_key@
    }

    pub closed spec fn refresh_secret(&self) -> Seq<char> {
        self.refresh_secret_key@
    }

    pub fn new(jwt_token: String, refresh_token: String) -> (r: JwtUtils)
        ensures
            r.secret() == jwt_token@,
            r.refresh_secret() == refresh_token@,
    {
        JwtUtils { secret_key: jwt_token, refresh_secret_key: refresh_token }
    }

    fn claims_in_days(user_id: &str, now: i64, days: i64) -> (r: Option<JwtClaims>)
        ensures
            match days_expiry(now as int, days as int) {
                Some(exp) => r matches Some(c) && c.id@ == user_id@ && c.exp == exp,
                None => r is None,
            },
    {
        match days.checked_mul(86400) {
            Some(seconds) => crate::auth::JwtUtils::claims_at(user_id, now, seconds),
            None => None,
        }
    }

    /// The access token of `user_id` issued at `now` (Unix seconds) for `expires_in_days` days.
    pub fn token_at(&self, user_id: &str, expires_in_days: i64, now: i64) -> (r: Option<String>)
        ensures
            match days_expiry(now as int, expires_in_days as int) {
                Some(exp) => r matches Some(t) && t@ == jwt_hs256_token(user_id@, exp, self.secret()) && t@.len() > 0,
                None => r is None,
            },
    {
        match Self::claims_in_days(user_id, now, expires_in_days) {
            Some(c) => Some(jwt_encode(c.id.as_str(), c.exp, self.secret_key.as_str())),
            None => None,
        }
    }

    /// The refresh token of `user_id` issued at `now` (Unix seconds).
    pub fn refresh_token_at(&self, user_id: &str, now: i64) -> (r: Option<String>)
        ensures
            match days_expiry(now as int, REFRESH_TOKEN_DAYS as int) {
                Some(exp) => r matches Some(t) && t@ == jwt_hs256_token(user_id@, exp, self.refresh_secret()) && t@.len() > 0,
                None => r is None,
            },
    {
        match Self::claims_in_days(user_id, now, REFRESH_TOKEN_DAYS) {
            Some(c) => Some(jwt_encode(c.id.as_str(), c.exp, self.refresh_secret_key.as_str())),
            None => None,
        }
    }

    /// The claims of an access token; `None` when the token is refused (a bad signature, an
    /// expiry passed by the clock, or claims of another shape).
    pub fn decode_token(&self, token: &str) -> (r: Option<JwtClaims>)
        ensures
            decoded_from(token@, self.secret(), r),
    {
        match jwt_decode(token, self.secret_key.as_str()) {
            Some((id, exp)) => Some(JwtClaims { id, exp }),
            None => None,
        }
    }

    /// The claims of a refresh token; `None` when the token is refused.
    pub fn decode_refresh_token(&self, token: &str) -> (r: Option<JwtClaims>)
        ensures
            decoded_from(token@, self.refresh_secret(), r),
    {
        match jwt_decode(token, self.refresh_secret_key.as_str()) {
            Some((id, exp)) => Some(JwtClaims { id, exp }),
            None => None,
        }
    }

    /// An access token of `user_id` that expires `expires_in_days` days from now, as the clock
    /// reads it. `None` when the expiry cannot be held by a date-time.
    pub fn generate_token(&self, user_id: &str, expires_in_days: i64) -> (r: Option<String>)
        ensures
            exists|now: i64| TIME_MIN <= now <= TIME_MAX && match #[trigger] days_expiry(now as int, expires_in_days as int) {
                Some(exp) => r matches Some(t) && t@ == jwt_hs256_token(user_id@, exp, self.secret()) && t@.len() > 0,
                None => r is None,
            },
    {
        let now = now_unix_seconds();
        self.token_at(user_id, expires_in_days, now)
    }

    /// A refresh token of `user_id` that expires thirty days from now, as the clock reads it.
    /// `None` when the expiry cannot be held by a date-time.
    pub fn generate_refresh_token(&self, user_id: &str) -> (r: Option<String>)
        ensures
            exists|now: i64| TIME_MIN <= now <= TIME_MAX && match #[trigger] days_expiry(now as int, REFRESH_TOKEN_DAYS as int) {
                Some(exp) => r matches Some(t) && t@ == jwt_hs256_token(user_id@, exp, self.refresh_secret()) && t@.len() > 0,
                None => r is None,
            },
    {
        let now = now_unix_seconds();
        self.refresh_token_at(user_id, now)
    }
}

/// A refresh token issued at `now` expires thirty days after, whenever a date-time can hold that.
pub proof fn lemma_refresh_lives_thirty_days(now: int)
    requires
        crate::auth::TIME_MIN <= now + 2592000 <= crate::auth::TIME_MAX,
    ensures
        days_expiry(now, REFRESH_TOKEN_DAYS as int) == Some(now + 2592000),
{
}

} // verus!

//! Tokens and logins: issuing access and refresh tokens, signing users in with a social
//! account, and the checks that guard the API.
use vstd::prelude::*;
use crate::entities::{NewUser, User};
use crate::errors::{auth_unexpected, is_auth_unexpected, AuthError};
use crate::outside::{jwt_decode, jwt_encode, jwt_hs256_token, now_micros, now_unix_seconds};
use crate::repositories::{AuthCall, AuthRepository, AuthStore};
use crate::responses::AuthResponse;
use crate::strings::{decimal, i32_to_string, str_eq, trim_start_all, trim_start_matches};
use crate::utils::{generate_username, is_username};

verus! {

/// The earliest Unix second an `OffsetDateTime` can hold (the start of year -9999).
pub const TIME_MIN: i64 = -377705116800;

/// The last Unix second an `OffsetDateTime` can hold (the end of year 9999).
pub const TIME_MAX: i64 = 253402300799;

/// The expiry of a token issued at `now` that lives `duration` seconds, if a date-time can hold it.
pub open spec fn expiry(now: int, duration: int) -> Option<int> {
    if TIME_MIN <= now + duration <= TIME_MAX { Some(now + duration) } else { None }
}

/// Whether `r` is the token of `id` issued at the clock reading `now` (within the range of a
/// date-time) for `lifetime` seconds and signed with `secret`: `None` when the expiry cannot
/// be held by a date-time.
pub open spec fn token_issued(lifetime: int, id: Seq<char>, secret: Seq<char>, now: i64, r: Option<String>) -> bool {
    &&& TIME_MIN <= now <= TIME_MAX
    &&& match expiry(now as int, lifetime) {
        Some(exp) => r matches Some(t) && t@ == jwt_hs256_token(id, exp, secret) && t@.len() > 0,
        None => r is None,
    }
}

/// Whether `r` is what decoding `token` with `secret` may give: a token made for an id and an
/// expiry with this secret gives back that id and that expiry, whenever it is accepted.
pub open spec fn decoded_from(token: Seq<char>, secret: Seq<char>, r: Option<JwtClaims>) -> bool {
    forall|id: Seq<char>, exp: int| i64::MIN <= exp <= i64::MAX && #[trigger] jwt_hs256_token(id, exp, secret) == token
        ==> (r matches Some(c) ==> c.id@ == id && c.exp == exp)
}

/// A token issued for `id` at `now` decodes, whenever it is accepted, to that id and to the
/// expiry it was issued with, `now` plus its lifetime.
pub proof fn lemma_issued_token_decodes(lifetime: int, id: Seq<char>, secret: Seq<char>, now: i64, token: String, decoded: Option<JwtClaims>)
    requires
        token_issued(lifetime, id, secret, now, Some(token)),
        decoded_from(token@, secret, decoded),
    ensures
        decoded matches Some(c) ==> c.id@ == id && c.exp == now + lifetime,
{
    let exp = now + lifetime;
    assert(jwt_hs256_token(id, exp, secret) == token@);
}

/// The secrets and lifetimes (in seconds) of the tokens.
#[derive(Debug, PartialEq)]
pub struct JwtConfig {
    pub jwt_token: String,
    pub refresh_token: String,
    pub token_expires_in_seconds: i64,
    pub refresh_token_expires_in_seconds: i64,
}

/// The claims a token carries: whose it is and until when it is valid.
#[derive(Debug, PartialEq)]
pub struct JwtClaims {
    pub id: String,
    pub exp: i64,
}

/// Issues access and refresh tokens.
#[derive(Debug)]
pub struct JwtUtils {
    secret_key: String,
    refresh_secret_key: String,
    token_duration: i64,
    refresh_token_duration: i64,
}

impl Clone for JwtUtils {
    fn clone(&self) -> (r: Self)
        ensures
            r == *self,
    {
        JwtUtils {
            secret_key: self.secret_key.clone(),
            refresh_secret_key: self.refresh_secret_key.clone(),
            token_duration: self.token_duration,
            refresh_token_duration: self.refresh_token_duration,
        }
    }
}

impl JwtUtils {
    pub closed spec fn secret(&self) -> Seq<char> {
        self.secret_key@
    }

    pub closed spec fn refresh_secret(&self) -> Seq<char> {
        self.refresh_secret_key@
    }

    pub closed spec fn token_lifetime(&self) -> int {
        self.token_duration as int
    }

    pub closed spec fn refresh_token_lifetime(&self) -> int {
        self.refresh_token_duration as int
    }

    pub fn new(jwt: JwtConfig) -> (r: JwtUtils)
        ensures
            r.secret() == jwt.jwt_token@,
            r.refresh_secret() == jwt.refresh_token@,
            r.token_lifetime() == jwt.token_expires_in_seconds,
            r.refresh_token_lifetime() == jwt.refresh_token_expires_in_seconds,
    {
        JwtUtils {
            secret_key: jwt.jwt_token,
            refresh_secret_key: jwt.refresh_token,
            token_duration: jwt.token_expires_in_seconds,
            refresh_token_duration: jwt.refresh_token_expires_in_seconds,
        }
    }

    /// The claims of a token for `user_id` issued at `now` that lives `duration` seconds.
    pub fn claims_at(user_id: &str, now: i64, duration: i64) -> (r: Option<JwtClaims>)
        ensures
            match expiry(now as int, duration as int) {
                Some(exp) => r matches Some(c) && c.id@ == user_id@ && c.exp == exp,
                None => r is None,
            },
    {
        let now = now as i128;
        let exp = now + duration as i128;
        if exp < TIME_MIN as i128 || exp > TIME_MAX as i128 {
            return None;
        }
        Some(JwtClaims { id: user_id.to_string(), exp: exp as i64 })
    }

    /// The access token of `user_id` issued at `now` (Unix seconds).
    pub fn token_at(&self, user_id: &str, now: i64) -> (r: Option<String>)
        ensures
            match expiry(now as int, self.token_lifetime()) {
                Some(exp) => r matches Some(t) && t@ == jwt_hs256_token(user_id@, exp, self.secret()) && t@.len() > 0,
                None => r is None,
            },
    {
        match Self::claims_at(user_id, now, self.token_duration) {
            Some(claims) => Some(jwt_encode(claims.id.as_str(), claims.exp, self.secret_key.as_str())),
            None => None,
        }
    }

    /// The refresh token of `user_id` issued at `now` (Unix seconds).
    pub fn refresh_token_at(&self, user_id: &str, now: i64) -> (r: Option<String>)
        ensures
            match expiry(now as int, self.refresh_token_lifetime()) {
                Some(exp) => r matches Some(t) && t@ == jwt_hs256_token(user_id@, exp, self.refresh_secret()) && t@.len() > 0,
                None => r is None,
            },
    {
        match Self::claims_at(user_id, now, self.refresh_token_duration) {
            Some(claims) => Some(jwt_encode(claims.id.as_str(), claims.exp, self.refresh_secret_key.as_str())),
            None => None,
        }
    }

    /// The claims of an access token; `None` when the token is refused (a bad signature, an
    /// expiry passed by the clock, or claims of another shape).
    pub fn decode_token(&self, token: &str) -> (r: Option<JwtClaims>)
        ensures
            decoded_from(token@, self.secret(), r),
    {
        match jwt_decode(token, self.secret_key.as_str()) {
            Some((id, exp)) => Some(JwtClaims { id, exp }),
            None => None,
        }
    }

    /// The claims of a refresh token; `None` when the token is refused.
    pub fn decode_refresh_token(&self, token: &str) -> (r: Option<JwtClaims>)
        ensures
            decoded_from(token@, self.refresh_secret(), r),
    {
        match jwt_decode(token, self.refresh_secret_key.as_str()) {
            Some((id, exp)) => Some(JwtClaims { id, exp }),
            None => None,
        }
    }

    /// An access token of `user_id` that expires the token lifetime from now, as the clock
    /// reads it. `None` when the expiry would pass the last date a date-time can hold.
    pub fn generate_token(&self, user_id: &str) -> (r: Option<String>)
        ensures
            exists|now: i64| #[trigger] token_issued(self.token_lifetime(), user_id@, self.secret(), now, r),
    {
        let now = now_unix_seconds();
        let r = self.token_at(user_id, now);
        assert(token_issued(self.token_lifetime(), user_id@, self.secret(), now, r));
        r
    }

    /// A refresh token of `user_id` that expires the refresh lifetime from now, as the clock
    /// reads it. `None` when the expiry would pass the last date a date-time can hold.
    pub fn generate_refresh_token(&self, user_id: &str) -> (r: Option<String>)
        ensures
            exists|now: i64| #[trigger] token_issued(self.refresh_token_lifetime(), user_id@, self.refresh_secret(), now, r),
    {
        let now = now_unix_seconds();
        let r = self.refresh_token_at(user_id, now);
        assert(token_issued(self.refresh_token_lifetime(), user_id@, self.refresh_secret(), now, r));
        r
    }
}

/// What a guard makes of a request.
#[derive(Debug, PartialEq)]
pub enum AuthOutcome {
    /// The request goes on on behalf of this user id.
    Authorized(String),
    /// The request is refused with this message.
    Unauthorized(String),
}

/// The token of an `Authorization` header: the header with every leading `Bearer ` taken off.
pub fn bearer_token(header: &str) -> (r: String)
    ensures
        r@ == trim_start_all(header@, "Bearer "@),
{
    trim_start_matches(header, "Bearer ")
}

/// What the guard makes of a request without a token.
pub fn missing_token_outcome() -> (r: AuthOutcome)
    ensures
        r matches AuthOutcome::Unauthorized(m) && m@ == "Missing bearer token"@,
{
    AuthOutcome::Unauthorized("Missing bearer token".to_string())
}

/// What the guard makes of a token, given the user id read from it (`None` when it could not
/// be read).
pub fn decoded_token_outcome(decoded: Option<String>) -> (r: AuthOutcome)
    ensures
        match decoded {
            Some(id) => r == AuthOutcome::Authorized(id),
            None => r matches AuthOutcome::Unauthorized(m) && m@ == "Failed to decode token"@,
        },
{
    match decoded {
        Some(id) => AuthOutcome::Authorized(id),
        None => AuthOutcome::Unauthorized("Failed to decode token".to_string()),
    }
}

/// Whether a request's `X-API-Key` header carries the client key.
pub fn api_key_accepted(header: Option<&str>, client_api_key: &str) -> (r: bool)
    ensures
        r == (header matches Some(h) && h@ == client_api_key@),
{
    match header {
        Some(h) => str_eq(h, client_api_key),
        None => false,
    }
}

/// A login with a social account: the user's name and the id the provider gives them.
#[derive(Debug, PartialEq)]
pub struct CreateTokenDto {
    pub full_name: String,
    pub external_id: String,
}

impl Clone for CreateTokenDto {
    fn clone(&self) -> (r: Self)
        ensures
            r == *self,
    {
        CreateTokenDto { full_name: self.full_name.clone(), external_id: self.external_id.clone() }
    }
}

/// The row of a user signing in for the first time at `now`, under a fresh user name.
pub fn new_social_user(data: &CreateTokenDto, user_name: String, now: i64) -> (r: NewUser)
    ensures
        r.full_name matches Some(n) && n@ == data.full_name@,
        r.external_id@ == data.external_id@,
        r.user_name == user_name,
        r.created_at == now,
        r.updated_at == now,
        r.bio is None,
        r.avatar is None,
{
    NewUser {
        full_name: Some(data.full_name.clone()),
        external_id: data.external_id.clone(),
        user_name,
        created_at: now,
        updated_at: now,
        bio: None,
        avatar: None,
    }
}

/// Whether `r` is the answer built for `user_id` (and `user`) with the clock read at `now_token`
/// for the access token and at `now_refresh` for the refresh token: both tokens name the
/// user's id in decimal, expire their lifetime after issue and are signed with their secret;
/// "Failed to generate token" exactly when an expiry cannot be held by a date-time.
pub open spec fn tokens_outcome(jwt_utils: JwtUtils, user_id: i32, user: Option<User>, now_token: i64, now_refresh: i64, r: Result<AuthResponse, AuthError>) -> bool {
    &&& TIME_MIN <= now_token <= TIME_MAX
    &&& TIME_MIN <= now_refresh <= TIME_MAX
    &&& match (expiry(now_token as int, jwt_utils.token_lifetime()), expiry(now_refresh as int, jwt_utils.refresh_token_lifetime())) {
        (Some(exp), Some(refresh_exp)) => r matches Ok(a) && a.user == user
            && a.token@ == jwt_hs256_token(decimal(user_id as int), exp, jwt_utils.secret())
            && a.refresh_token@ == jwt_hs256_token(decimal(user_id as int), refresh_exp, jwt_utils.refresh_secret())
            && a.token@.len() > 0 && a.refresh_token@.len() > 0,
        _ => r matches Err(e) && is_auth_unexpected(e, "Failed to generate token"@),
    }
}

/// Whether `r` is the answer for `user_id` (and `user`) at some two clock readings.
pub open spec fn tokens_issued(jwt_utils: JwtUtils, user_id: i32, user: Option<User>, r: Result<AuthResponse, AuthError>) -> bool {
    exists|now_token: i64, now_refresh: i64| #[trigger] tokens_outcome(jwt_utils, user_id, user, now_token, now_refresh, r)
}

/// Whether `row` is the row of a user signing in for the first time with `data`: the name and
/// the account id given, a fresh user name, no bio and no avatar.
pub open spec fn is_social_user_row(row: NewUser, data: CreateTokenDto) -> bool {
    &&& row.full_name matches Some(n) && n@ == data.full_name@
    &&& row.external_id@ == data.external_id@
    &&& is_username(row.user_name@)
    &&& row.updated_at == row.created_at
    &&& row.bio is None
    &&& row.avatar is None
}

/// The answer to a login or a renewal: both tokens of `user_id`, and the user when known.
/// An expiry past the last representable date becomes "Failed to generate token".
pub fn auth_response(jwt_utils: &JwtUtils, user_id: i32, user: Option<User>) -> (r: Result<AuthResponse, AuthError>)
    ensures
        tokens_issued(*jwt_utils, user_id, user, r),
{
    let id = i32_to_string(user_id);
    let token = jwt_utils.generate_token(id.as_str());
    let ghost now_token = choose|now: i64| #[trigger] token_issued(jwt_utils.token_lifetime(), id@, jwt_utils.secret(), now, token);
    let refresh_token = jwt_utils.generate_refresh_token(id.as_str());
    let ghost now_refresh = choose|now: i64| #[trigger] token_issued(jwt_utils.refresh_token_lifetime(), id@, jwt_utils.refresh_secret(), now, refresh_token);
    let r = match (token, refresh_token) {
        (Some(token), Some(refresh_token)) => Ok(AuthResponse { token, refresh_token, user }),
        _ => Err(auth_unexpected("Failed to generate token")),
    };
    assert(tokens_outcome(*jwt_utils, user_id, user, now_token, now_refresh, r));
    r
}

/// The authentication service over a user store.
pub struct AuthServiceImpl<R: AuthRepository> {
    store: AuthStore<R>,
}

impl<R: AuthRepository> AuthServiceImpl<R> {
    /// The store the service reads and writes, with the calls made to it.
    pub closed spec fn store(&self) -> AuthStore<R> {
        self.store
    }

    pub fn new(repository: R) -> (r: Self)
        ensures
            r.store().repository() == repository,
            r.store().calls() == Seq::<AuthCall>::empty(),
    {
        AuthServiceImpl { store: AuthStore::new(repository) }
    }

    /// Signs in with a social account: the account is looked up by its id; a known user gets
    /// tokens as found, with nothing written; an unknown one is created first under a random
    /// user name, and a failed creation gives "Failed to create new user".
    pub fn login_with_social(&mut self, data: CreateTokenDto, jwt_utils: JwtUtils) -> (r: Result<AuthResponse, AuthError>)
        ensures
            final(self).store().repository() == old(self).store().repository(),
            exists|found: Result<User, AuthError>| #[trigger] old(self).store().repository().answers_get_user_by_auth_id(data.external_id@, found) && {
                let looked_up = old(self).store().calls().push(AuthCall::GetUserByAuthId(data.external_id@, found));
                match found {
                    Ok(user) => final(self).store().calls() == looked_up && tokens_issued(jwt_utils, user.id, Some(user), r),
                    Err(_) => exists|row: NewUser, created: Result<User, AuthError>|
                        #[trigger] old(self).store().repository().answers_create_user(row, created) && {
                        &&& is_social_user_row(row, data)
                        &&& final(self).store().calls() == looked_up.push(AuthCall::CreateUser(row, created))
                        &&& match created {
                            Ok(user) => tokens_issued(jwt_utils, user.id, Some(user), r),
                            Err(_) => r matches Err(e) && is_auth_unexpected(e, "Failed to create new user"@),
                        }
                    },
                }
            },
    {
        let found = self.store.get_user_by_auth_id(data.external_id.clone());
        assert(old(self).store().repository().answers_get_user_by_auth_id(data.external_id@, found));
        match found {
            Ok(user) => auth_response(&jwt_utils, user.id, Some(user)),
            Err(_) => {
                let now = now_micros();
                let new_user = new_social_user(&data, generate_username(), now);
                let ghost row = new_user;
                let created = self.store.create_user(new_user);
                assert(old(self).store().repository().answers_create_user(row, created));
                match created {
                    Ok(user) => auth_response(&jwt_utils, user.id, Some(user)),
                    Err(_) => Err(auth_unexpected("Failed to create new user")),
                }
            },
        }
    }

    /// Renews both tokens of a signed-in user; the store is not asked.
    pub fn refresh_token(&self, jwt_utils: JwtUtils, user_id: i32) -> (r: Result<AuthResponse, AuthError>)
        ensures
            tokens_issued(jwt_utils, user_id, None, r),
    {
        auth_response(&jwt_utils, user_id, None)
    }
}

} // verus!

//! What a client gets when it logs in, or exchanges a token for a new one.

use crate::clock::is_clock_time;
use crate::clock::unix_time_now;
use crate::errors::UserError;
use crate::jwt::SecretKey;
use crate::jwt::UserToken;
use crate::user::LoginData;
use crate::user::User;
use vstd::prelude::*;
use vstd::string::StringExecFns;

verus! {

/// The answer to a login or to an exchange: the token, and the word that
/// says how to present it.
#[derive(Debug, PartialEq, Eq)]
pub struct TokenResponse {
    pub token: String,
    pub token_type: String,
}

/// `r` is the answer to a request that was granted a token for the user
/// `user_id` with `email`, at the time `now`: what `generate_token_at` made,
/// presented as a bearer token.
pub open spec fn grants(
    r: Result<TokenResponse, UserError>,
    user_id: u128,
    email: Seq<char>,
    key: Seq<u8>,
    now: i64,
) -> bool {
    match r {
        Ok(response) => {
            &&& response.token_type@ == "bearer"@
            &&& UserToken::generated_at(Ok(response.token), user_id, email, key, now)
        },
        Err(e) => UserToken::generated_at(Err(e), user_id, email, key, now),
    }
}

/// `r` is the answer at the time `now` to a login with `login_data`, where
/// the store found `found` under its email.
pub open spec fn logs_in(
    r: Result<TokenResponse, UserError>,
    found: Option<User>,
    login_data: LoginData,
    key: Seq<u8>,
    now: i64,
) -> bool {
    match found {
        Some(user) if user.spec_accepts(login_data.password@) => grants(
            r,
            user.id,
            user.email@,
            key,
            now,
        ),
        _ => r == Err::<TokenResponse, UserError>(UserError::InvalidCredentials),
    }
}

/// Issues a token at the time `now` and wraps it for the client.
fn grant_at(user_id: u128, email: &String, key: &SecretKey, now: i64) -> (r: Result<
    TokenResponse,
    UserError,
>)
    ensures
        grants(r, user_id, email@, key@, now),
{
    match UserToken::generate_token_at(user_id, email, key, now) {
        Ok(token) => Ok(TokenResponse { token, token_type: String::from_str("bearer") }),
        Err(e) => Err(e),
    }
}

/// Answers a login at the time `now`, given the record that the store found
/// under the email of `login_data`, if it found one.
///
/// An unknown user, an empty credential and a wrong password are all
/// `InvalidCredentials`. Otherwise the user gets a token issued at `now`,
/// or `InternalError` where none can be made.
pub fn login_at(found: Option<User>, login_data: LoginData, key: &SecretKey, now: i64) -> (r:
    Result<TokenResponse, UserError>)
    ensures
        logs_in(r, found, login_data, key@, now),
{
    match User::login(found, login_data) {
        Ok(user) => grant_at(user.id, &user.email, key, now),
        Err(e) => Err(e),
    }
}

/// Answers a login now: `login_at` at the time the clock shows.
///
/// It succeeds exactly when the store found a user whose credential is not
/// empty and matches the password; everything else is `InvalidCredentials`.
pub fn login(found: Option<User>, login_data: LoginData, key: &SecretKey) -> (r: Result<
    TokenResponse,
    UserError,
>)
    ensures
        r.is_ok() <==> (found matches Some(user) && user.spec_accepts(login_data.password@)),
        r matches Err(e) ==> e == UserError::InvalidCredentials,
        exists|now: i64| is_clock_time(now) && #[trigger] logs_in(r, found, login_data, key@, now),
{
    let now = unix_time_now();
    let r = login_at(found, login_data, key, now);
    assert(logs_in(r, found, login_data, key@, now));
    r
}

/// Exchanges the claims of a token, decoded leniently, for a new token
/// issued at `now` to the same user.
pub fn refresh_token_at(user_token: &UserToken, key: &SecretKey, now: i64) -> (r: Result<
    TokenResponse,
    UserError,
>)
    ensures
        grants(r, user_token.id, user_token.email@, key@, now),
{
    grant_at(user_token.id, &user_token.email, key, now)
}

/// Exchanges a token now: `refresh_token_at` at the time the clock shows. It
/// always succeeds.
pub fn refresh_token(user_token: &UserToken, key: &SecretKey) -> (r: Result<
    TokenResponse,
    UserError,
>)
    ensures
        r.is_ok(),
        exists|now: i64|
            is_clock_time(now) && #[trigger] grants(
                r,
                user_token.id,
                user_token.email@,
                key@,
                now,
            ),
{
    let now = unix_time_now();
    let r = refresh_token_at(user_token, key, now);
    assert(grants(r, user_token.id, user_token.email@, key@, now));
    r
}

} // verus!

//! The identity of the user behind a request.

use crate::clock::is_clock_time;
use crate::clock::unix_time_now;
use crate::errors::UserError;
use crate::jwt::Claims;
use crate::jwt::SecretKey;
use crate::jwt::UserToken;
use vstd::prelude::*;
use vstd::std_specs::convert::FromSpecImpl;

verus! {

/// Who a request comes from, as values.
pub struct Identity {
    pub email: Seq<char>,
    pub id: u128,
}

/// Who a request comes from: what handlers get to see of a valid token.
#[derive(Debug, PartialEq, Eq)]
pub struct AuthenticatedUser {
    pub email: String,
    /// The user's id, a UUID as a 128-bit number.
    pub id: u128,
}

impl View for AuthenticatedUser {
    type V = Identity;

    open spec fn view(&self) -> Identity {
        Identity { email: self.email@, id: self.id }
    }
}

impl From<UserToken> for AuthenticatedUser {
    /// The identity that a token's claims name.
    fn from(token: UserToken) -> (user: AuthenticatedUser) {
        AuthenticatedUser { email: token.email, id: token.id }
    }
}

impl FromSpecImpl<UserToken> for AuthenticatedUser {
    open spec fn obeys_from_spec() -> bool {
        true
    }

    open spec fn from_spec(token: UserToken) -> AuthenticatedUser {
        AuthenticatedUser { email: token.email, id: token.id }
    }
}

impl AuthenticatedUser {
    /// The identity that claims name.
    pub open spec fn spec_resolve(claims: Claims) -> Identity {
        Identity { email: claims.email, id: claims.id }
    }

    /// The identity behind a request at the time `now`: that of the token in
    /// its `Authorization` header, decoded strictly.
    pub open spec fn spec_from_request(
        authorization: Option<&str>,
        key: Seq<u8>,
        now: int,
    ) -> Option<Identity> {
        match UserToken::spec_request_token(authorization) {
            Some(token) => match UserToken::spec_decode(token, key, now) {
                Some(claims) => Some(Self::spec_resolve(claims)),
                None => None,
            },
            None => None,
        }
    }

    /// `r` is the answer to a request for an identity that is `expected`:
    /// the identity where there is one, `Unauthorized` where there is none.
    pub open spec fn answers(
        r: Result<AuthenticatedUser, UserError>,
        expected: Option<Identity>,
    ) -> bool {
        match r {
            Ok(user) => expected == Some(user@),
            Err(e) => e == UserError::Unauthorized && expected.is_none(),
        }
    }

    /// Resolves the identity behind a request at the time `now`, given the
    /// value of its `Authorization` header: reads the token out of the header
    /// and decodes it strictly.
    pub fn from_request_at(authorization: Option<&str>, key: &SecretKey, now: i64) -> (r: Result<
        AuthenticatedUser,
        UserError,
    >)
        ensures
            Self::answers(r, Self::spec_from_request(authorization, key@, now as int)),
    {
        match UserToken::parse_jwt_from_request(authorization) {
            Ok(jwt) => match UserToken::decode_token_at(&jwt, key, now) {
                Ok(token) => Ok(AuthenticatedUser::from(token)),
                Err(e) => Err(e),
            },
            Err(e) => Err(e),
        }
    }

    /// Resolves the identity behind a request now: `from_request_at` at the
    /// time the clock shows.
    pub fn from_request(authorization: Option<&str>, key: &SecretKey) -> (r: Result<
        AuthenticatedUser,
        UserError,
    >)
        ensures
            exists|now: i64|
                is_clock_time(now) && Self::answers(
                    r,
                    #[trigger] Self::spec_from_request(authorization, key@, now as int),
                ),
    {
        let now = unix_time_now();
        let r = Self::from_request_at(authorization, key, now);
        assert(Self::answers(r, Self::spec_from_request(authorization, key@, now as int)));
        r
    }
}

} // verus!

//! The guard in front of the handlers: it lets a request pass or rejects it.

use crate::auth::AuthenticatedUser;
use crate::bearer::bearer_header;
use crate::bearer::bearer_token;
use crate::bearer::lemma_bearer_header;
use crate::clock::is_clock_time;
use crate::clock::unix_time_now;
use crate::jwt::Claims;
use crate::jwt::SecretKey;
use crate::errors::UserError;
use crate::jwt::UserToken;
use vstd::prelude::*;

verus! {

/// The status of the response to a rejected request. Its body is empty,
/// unlike that of an error that a handler reports, which carries the error's
/// message: a rejected request never reached a handler.
pub const REJECT_STATUS: u16 = 401;

/// What the guard decides of a request.
#[derive(Debug, PartialEq, Eq)]
pub enum Verdict {
    /// The request goes on to its handler, with the identity that was
    /// resolved for it. A pre-flight request goes on without one.
    Pass(Option<AuthenticatedUser>),
    /// The request is answered with `REJECT_STATUS` and an empty body; its
    /// handler does not run.
    Reject,
}

/// Makes the guard for a service.
pub struct Authentication {
    key: SecretKey,
}

/// The guard in front of the service `S`.
pub struct AuthenticationMiddleware<S> {
    service: S,
    key: SecretKey,
}

impl Authentication {
    pub closed spec fn key(&self) -> Seq<u8> {
        self.key@
    }

    /// A maker of guards that check tokens with `key`.
    pub fn new(key: SecretKey) -> (authentication: Authentication)
        ensures
            authentication.key() == key@,
    {
        Authentication { key }
    }

    /// The guard in front of `service`.
    pub fn new_transform<S>(&self, service: S) -> (guard: AuthenticationMiddleware<S>)
        ensures
            guard.key() == self.key(),
            guard.spec_service() == service,
    {
        AuthenticationMiddleware { service, key: self.key.clone() }
    }
}

impl<S> AuthenticationMiddleware<S> {
    pub closed spec fn key(&self) -> Seq<u8> {
        self.key@
    }

    pub closed spec fn spec_service(&self) -> S {
        self.service
    }

    /// The service behind the guard.
    pub fn service(&self) -> (service: &S)
        ensures
            *service == self.spec_service(),
    {
        &self.service
    }

    /// `verdict` is what the guard decides at the time `now` of a request
    /// that is a pre-flight request or not and has the given
    /// `Authorization` header.
    pub open spec fn decides(
        &self,
        verdict: Verdict,
        preflight: bool,
        authorization: Option<&str>,
        now: int,
    ) -> bool {
        let identity = AuthenticatedUser::spec_from_request(authorization, self.key(), now);
        match verdict {
            Verdict::Pass(None) => preflight,
            Verdict::Pass(Some(user)) => !preflight && identity == Some(user@),
            Verdict::Reject => !preflight && identity.is_none(),
        }
    }

    /// Decides a request at the time `now`.
    ///
    /// A pre-flight request passes, whatever its header. Any other request
    /// passes exactly when its `Authorization` header carries a token that
    /// decodes strictly, and then with the identity that the token names;
    /// else it is rejected.
    pub fn call_at(&self, preflight: bool, authorization: Option<&str>, now: i64) -> (verdict:
        Verdict)
        ensures
            self.decides(verdict, preflight, authorization, now as int),
    {
        if preflight {
            return Verdict::Pass(None);
        }
        match AuthenticatedUser::from_request_at(authorization, &self.key, now) {
            Ok(user) => Verdict::Pass(Some(user)),
            Err(_) => Verdict::Reject,
        }
    }

    /// Decides a request now: `call_at` at the time the clock shows.
    pub fn call(&self, preflight: bool, authorization: Option<&str>) -> (verdict: Verdict)
        ensures
            preflight ==> verdict == Verdict::Pass(None),
            exists|now: i64|
                is_clock_time(now) && #[trigger] self.decides(
                    verdict,
                    preflight,
                    authorization,
                    now as int,
                ),
    {
        let now = unix_time_now();
        let verdict = self.call_at(preflight, authorization, now);
        assert(self.decides(verdict, preflight, authorization, now as int));
        verdict
    }
}

impl<S> AuthenticationMiddleware<S> {
    /// A pre-flight request passes without an identity, whatever its
    /// `Authorization` header holds and whether it has one.
    pub proof fn lemma_preflight_passes(
        &self,
        verdict: Verdict,
        authorization: Option<&str>,
        now: i64,
    )
        requires
            self.decides(verdict, true, authorization, now as int),
        ensures
            verdict == Verdict::Pass(None),
    {
    }

    /// A request that is no pre-flight request and whose header carries a
    /// token with a valid signature that has not expired passes, with the
    /// identity that the token's claims name.
    pub proof fn lemma_valid_token_passes(
        &self,
        verdict: Verdict,
        header: &str,
        token: Seq<char>,
        claims: Claims,
        now: i64,
    )
        requires
            self.decides(verdict, false, Some(header), now as int),
            bearer_token(header@) == Some(token),
            UserToken::spec_verify(token, self.key()) == Some(claims),
            now <= claims.exp,
        ensures
            verdict matches Verdict::Pass(Some(user)) && user.id == claims.id && user.email@
                == claims.email,
    {
    }

    /// A request that is no pre-flight request and has no `Authorization`
    /// header is rejected.
    pub proof fn lemma_missing_token_rejected(&self, verdict: Verdict, now: i64)
        requires
            self.decides(verdict, false, None, now as int),
        ensures
            verdict == Verdict::Reject,
    {
    }

    /// A request that is no pre-flight request and whose header carries a
    /// token that has expired is rejected.
    pub proof fn lemma_expired_token_rejected(
        &self,
        verdict: Verdict,
        header: &str,
        token: Seq<char>,
        claims: Claims,
        now: i64,
    )
        requires
            self.decides(verdict, false, Some(header), now as int),
            bearer_token(header@) == Some(token),
            UserToken::spec_verify(token, self.key()) == Some(claims),
            claims.exp < now,
        ensures
            verdict == Verdict::Reject,
    {
    }

    /// A request that is no pre-flight request and whose header is `Bearer`,
    /// a blank and a token with a valid signature that has not expired
    /// passes, with the identity that the token's claims name.
    ///
    /// `lenient` is what `verify_token` gave for the token.
    pub proof fn lemma_signed_token_passes(
        &self,
        verdict: Verdict,
        header: &str,
        token: Seq<char>,
        lenient: Result<UserToken, UserError>,
        now: i64,
    )
        requires
            self.decides(verdict, false, Some(header), now as int),
            header@ == bearer_header(token),
            UserToken::verified(lenient, token, self.key()),
            lenient matches Ok(claims) && now <= claims.exp,
        ensures
            verdict matches Verdict::Pass(Some(user)) && lenient matches Ok(claims) && user.id
                == claims.id && user.email@ == claims.email@,
    {
        lemma_bearer_header(token);
    }

    /// A request that is no pre-flight request and whose header is `Bearer`,
    /// a blank and a token with a valid signature that has expired is
    /// rejected.
    ///
    /// `lenient` is what `verify_token` gave for the token.
    pub proof fn lemma_signed_expired_token_rejected(
        &self,
        verdict: Verdict,
        header: &str,
        token: Seq<char>,
        lenient: Result<UserToken, UserError>,
        now: i64,
    )
        requires
            self.decides(verdict, false, Some(header), now as int),
            header@ == bearer_header(token),
            UserToken::verified(lenient, token, self.key()),
            lenient matches Ok(claims) && claims.exp < now,
        ensures
            verdict == Verdict::Reject,
    {
        lemma_bearer_header(token);
    }
}

} // verus!

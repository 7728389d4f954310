//! Signed tokens that carry a user's identity and a validity window.

use crate::bearer::bearer_header;
use crate::bearer::bearer_token;
use crate::bearer::extract_bearer;
use crate::bearer::is_word;
use crate::bearer::lemma_bearer_header;
use crate::clock::is_clock_time;
use crate::clock::unix_time_now;
use crate::errors::UserError;
use jsonwebtoken::Algorithm;
use jsonwebtoken::DecodingKey;
use jsonwebtoken::EncodingKey;
use jsonwebtoken::Header;
use jsonwebtoken::Validation;
use serde_json::Value;
use uuid::Uuid;
use vstd::prelude::*;

verus! {

/// How long a token stays valid after it was issued, in seconds.
///
/// One minute is short on purpose: a client is expected to exchange its
/// token for a new one (see `session::refresh_token`) rather than to keep it.
/// The exchange looks at the signature only, so a token can be exchanged
/// again and again; nothing here bounds the life of a session.
pub const TOKEN_TTL_SECONDS: i64 = 60;

/// The secret that tokens are signed and checked with.
///
/// It is built once when the process starts and handed by reference to
/// whatever signs or checks a token. It has no `Debug`: it must not reach a
/// log.
pub struct SecretKey {
    bytes: Vec<u8>,
}

impl View for SecretKey {
    type V = Seq<u8>;

    closed spec fn view(&self) -> Seq<u8> {
        self.bytes@
    }
}

impl SecretKey {
    pub fn new(bytes: Vec<u8>) -> (key: SecretKey)
        ensures
            key@ == bytes@,
    {
        SecretKey { bytes }
    }

    pub fn as_bytes(&self) -> (bytes: &[u8])
        ensures
            bytes@ == self@,
    {
        self.bytes.as_slice()
    }
}

impl Clone for SecretKey {
    fn clone(&self) -> (key: SecretKey)
        ensures
            key@ == self@,
    {
        SecretKey { bytes: self.bytes.clone() }
    }
}

/// The claims of a token as values: when it was issued, when it expires,
/// and whom it names.
pub struct Claims {
    pub iat: int,
    pub exp: int,
    pub email: Seq<char>,
    pub id: u128,
}

/// The claims of a token.
#[derive(Debug, PartialEq, Eq)]
pub struct UserToken {
    /// Issued at, in seconds since the Unix epoch.
    pub iat: i64,
    /// Expires at, in seconds since the Unix epoch.
    pub exp: i64,
    pub email: String,
    /// The user's id, a UUID as a 128-bit number.
    pub id: u128,
}

impl View for UserToken {
    type V = Claims;

    open spec fn view(&self) -> Claims {
        Claims { iat: self.iat as int, exp: self.exp as int, email: self.email@, id: self.id }
    }
}

/// What the payload of a signed token holds under each of the four claim
/// names: a claim that is absent, or of another type than expected, is
/// `None`.
struct RawClaims {
    iat: Option<i64>,
    exp: Option<i64>,
    email: Option<String>,
    id: Option<u128>,
}

/// A payload's claims as values.
pub struct RawClaimsView {
    pub iat: Option<int>,
    pub exp: Option<int>,
    pub email: Option<Seq<char>>,
    pub id: Option<u128>,
}

impl View for RawClaims {
    type V = RawClaimsView;

    closed spec fn view(&self) -> RawClaimsView {
        RawClaimsView {
            iat: match self.iat {
                Some(t) => Some(t as int),
                None => None,
            },
            exp: match self.exp {
                Some(t) => Some(t as int),
                None => None,
            },
            email: match self.email {
                Some(e) => Some(e@),
                None => None,
            },
            id: self.id,
        }
    }
}

#[verifier::external_type_specification]
#[verifier::external_body]
pub struct ExJwtError(jsonwebtoken::errors::Error);

/// The token that `jsonwebtoken::encode` makes of the four claims under
/// `key`, with the default header (HS256).
pub uninterp spec fn jwt_signed(iat: int, exp: int, email: Seq<char>, id: u128, key: Seq<u8>) -> Seq<char>;

/// What `jsonwebtoken::decode` finds in `token` under `key`, where it
/// checks the HS256 signature and does not look at the clock: the four
/// claims of the payload, or `None` where it refuses the token.
pub uninterp spec fn jwt_payload(token: Seq<char>, key: Seq<u8>) -> Option<RawClaimsView>;

/// Signs the four claims with `jsonwebtoken::encode`, under the default
/// header (HS256) and `key` as an HMAC secret. The claims go in as a JSON
/// object with the members `iat`, `exp`, `email` and `id`, the id as the
/// hyphenated text of its UUID.
///
/// Trusted:
/// - the call succeeds: with an HMAC secret and HS256 nothing in it can
///   fail, as a JSON object of integers and strings always serialises;
/// - the result is `jwt_signed` of the arguments;
/// - the token is one word: three stretches of base64url characters with a
///   dot between them;
/// - a token made with an expiry that is not negative is one that
///   `jsonwebtoken::decode` accepts under the same key, giving back the same
///   four claims. The decoder reads the expiry as an unsigned number and
///   refuses a token without one, hence the condition.
#[verifier::external_body]
fn jwt_encode(iat: i64, exp: i64, email: &str, id: u128, key: &[u8]) -> (r: Result<
    String,
    jsonwebtoken::errors::Error,
>)
    ensures
        match r {
            Ok(token) => {
                &&& token@ == jwt_signed(iat as int, exp as int, email@, id, key@)
                &&& is_word(token@)
                &&& exp >= 0 ==> jwt_payload(token@, key@) == Some(
                    RawClaimsView {
                        iat: Some(iat as int),
                        exp: Some(exp as int),
                        email: Some(email@),
                        id: Some(id),
                    },
                )
            },
            Err(_) => false,
        },
{
    let mut claims = serde_json::Map::new();
    claims.insert("iat".to_owned(), Value::from(iat));
    claims.insert("exp".to_owned(), Value::from(exp));
    claims.insert("email".to_owned(), Value::from(email));
    claims.insert("id".to_owned(), Value::from(Uuid::from_u128(id).to_string()));
    jsonwebtoken::encode(&Header::default(), &claims, &EncodingKey::from_secret(key))
}

/// Checks and opens a token with `jsonwebtoken::decode`, for HS256 and
/// `key` as an HMAC secret, with the check of the expiry against the clock
/// switched off. The payload is read as a JSON value; of its members `iat`
/// and `exp` the integer is taken, of `email` the string, of `id` the UUID
/// that `Uuid::parse_str` reads in its string.
///
/// Trusted: the result is `jwt_payload` of the arguments; and a token that
/// is accepted is one word, as each of its three parts must read as
/// base64url. The call panics where the system's clock stands before the
/// Unix epoch.
#[verifier::external_body]
fn jwt_decode(token: &str, key: &[u8]) -> (r: Result<RawClaims, jsonwebtoken::errors::Error>)
    ensures
        match r {
            Ok(raw) => jwt_payload(token@, key@) == Some(raw@) && is_word(token@),
            Err(_) => jwt_payload(token@, key@).is_none(),
        },
{
    let mut rules = Validation::new(Algorithm::HS256);
    rules.validate_exp = false;
    let claims = jsonwebtoken::decode::<Value>(token, &DecodingKey::from_secret(key), &rules)?.claims;
    Ok(
        RawClaims {
            iat: claims.get("iat").and_then(Value::as_i64),
            exp: claims.get("exp").and_then(Value::as_i64),
            email: claims.get("email").and_then(Value::as_str).map(str::to_owned),
            id: claims.get("id").and_then(Value::as_str).and_then(|s| Uuid::parse_str(s).ok()).map(
                |u| u.as_u128(),
            ),
        },
    )
}

impl Clone for UserToken {
    fn clone(&self) -> (token: UserToken)
        ensures
            token@ == self@,
    {
        UserToken { iat: self.iat, exp: self.exp, email: self.email.clone(), id: self.id }
    }
}

impl UserToken {
    /// A token does not expire before it was issued.
    pub open spec fn wf(&self) -> bool {
        self.iat <= self.exp
    }

    /// The claims issued to a user at the time `now`.
    pub open spec fn spec_issue(user_id: u128, email: Seq<char>, now: int) -> Claims {
        Claims { iat: now, exp: now + TOKEN_TTL_SECONDS, email, id: user_id }
    }

    /// The token that stands for `claims` under `key`.
    pub open spec fn spec_sign(claims: Claims, key: Seq<u8>) -> Seq<char> {
        jwt_signed(claims.iat, claims.exp, claims.email, claims.id, key)
    }

    /// The claims of a payload that holds all four of them.
    pub open spec fn spec_complete(raw: RawClaimsView) -> Option<Claims> {
        if raw.iat.is_some() && raw.exp.is_some() && raw.email.is_some() && raw.id.is_some() {
            Some(
                Claims {
                    iat: raw.iat.unwrap(),
                    exp: raw.exp.unwrap(),
                    email: raw.email.unwrap(),
                    id: raw.id.unwrap(),
                },
            )
        } else {
            None
        }
    }

    /// Lenient decoding: the claims of `token` where its signature is valid
    /// under `key` and its payload holds all four claims. The expiry is not
    /// looked at.
    pub open spec fn spec_verify(token: Seq<char>, key: Seq<u8>) -> Option<Claims> {
        match jwt_payload(token, key) {
            Some(raw) => Self::spec_complete(raw),
            None => None,
        }
    }

    /// Strict decoding at the time `now`: as lenient decoding, and the token
    /// has not expired.
    pub open spec fn spec_decode(token: Seq<char>, key: Seq<u8>, now: int) -> Option<Claims> {
        match Self::spec_verify(token, key) {
            Some(claims) => if now <= claims.exp {
                Some(claims)
            } else {
                None
            },
            None => None,
        }
    }

    /// `r` is the answer to a request for claims that are `expected`: the
    /// claims where there are any, `Unauthorized` where there are none.
    pub open spec fn answers(r: Result<UserToken, UserError>, expected: Option<Claims>) -> bool {
        match r {
            Ok(token) => expected == Some(token@),
            Err(e) => e == UserError::Unauthorized && expected.is_none(),
        }
    }

    /// The claims for a user, issued at `now` and valid for
    /// `TOKEN_TTL_SECONDS`; nothing where the expiry would not fit in `i64`.
    pub fn issue(user_id: u128, email: &String, now: i64) -> (issued: Option<UserToken>)
        ensures
            match issued {
                Some(token) => token@ == Self::spec_issue(user_id, email@, now as int)
                    && token.wf(),
                None => now + TOKEN_TTL_SECONDS > i64::MAX,
            },
    {
        match now.checked_add(TOKEN_TTL_SECONDS) {
            Some(exp) => Some(UserToken { iat: now, exp, email: email.clone(), id: user_id }),
            None => None,
        }
    }

    /// `r` is what issuing a token at the time `now` gives: the signed
    /// claims, or `InternalError` where the expiry does not fit in `i64`. The
    /// token is one word, and with an expiry that is not negative it decodes,
    /// under the same key, to the claims that were issued.
    pub open spec fn generated_at(
        r: Result<String, UserError>,
        user_id: u128,
        email: Seq<char>,
        key: Seq<u8>,
        now: i64,
    ) -> bool {
        let claims = Self::spec_issue(user_id, email, now as int);
        match r {
            Ok(token) => {
                &&& claims.exp <= i64::MAX
                &&& token@ == Self::spec_sign(claims, key)
                &&& is_word(token@)
                &&& claims.exp >= 0 ==> Self::spec_verify(token@, key) == Some(claims)
            },
            Err(e) => e == UserError::InternalError && claims.exp > i64::MAX,
        }
    }

    /// Issues a token for a user at the time `now`.
    ///
    /// Succeeds exactly when the expiry fits in `i64`; otherwise the error is
    /// `InternalError`.
    pub fn generate_token_at(user_id: u128, email: &String, key: &SecretKey, now: i64) -> (r:
        Result<String, UserError>)
        ensures
            Self::generated_at(r, user_id, email@, key@, now),
    {
        match Self::issue(user_id, email, now) {
            Some(claims) => match jwt_encode(
                claims.iat,
                claims.exp,
                claims.email.as_str(),
                claims.id,
                key.as_bytes(),
            ) {
                Ok(token) => Ok(token),
                Err(_) => Err(UserError::InternalError),
            },
            None => Err(UserError::InternalError),
        }
    }

    /// Issues a token for a user now: `generate_token_at` at the time the
    /// clock shows. It always succeeds, and the token decodes, under the
    /// same key, to the claims that were issued.
    pub fn generate_token(user_id: u128, email: &String, key: &SecretKey) -> (r: Result<
        String,
        UserError,
    >)
        ensures
            r.is_ok(),
            exists|now: i64|
                is_clock_time(now) && #[trigger] Self::generated_at(
                    r,
                    user_id,
                    email@,
                    key@,
                    now,
                ),
    {
        let now = unix_time_now();
        let r = Self::generate_token_at(user_id, email, key, now);
        assert(Self::generated_at(r, user_id, email@, key@, now));
        r
    }

    /// The claims of a payload, where it holds all four.
    fn complete(raw: RawClaims) -> (token: Option<UserToken>)
        ensures
            match token {
                Some(t) => Self::spec_complete(raw@) == Some(t@),
                None => Self::spec_complete(raw@).is_none(),
            },
    {
        match (raw.iat, raw.exp, raw.email, raw.id) {
            (Some(iat), Some(exp), Some(email), Some(id)) => Some(
                UserToken { iat, exp, email, id },
            ),
            _ => None,
        }
    }

    /// `r` is what lenient decoding gives for `token` under `key`. A token
    /// that is accepted is one word.
    pub open spec fn verified(
        r: Result<UserToken, UserError>,
        token: Seq<char>,
        key: Seq<u8>,
    ) -> bool {
        Self::answers(r, Self::spec_verify(token, key)) && (r.is_ok() ==> is_word(token))
    }

    /// `r` is what strict decoding gives for `token` under `key` at the time
    /// `now`. A token that is accepted is one word.
    pub open spec fn decoded_at(
        r: Result<UserToken, UserError>,
        token: Seq<char>,
        key: Seq<u8>,
        now: i64,
    ) -> bool {
        Self::answers(r, Self::spec_decode(token, key, now as int)) && (r.is_ok() ==> is_word(
            token,
        ))
    }

    /// Lenient decoding, for the exchange of a token against a new one: the
    /// signature must be valid under `key`, the expiry is not looked at.
    /// Any failure is `Unauthorized`.
    pub fn verify_token(jwt: &String, key: &SecretKey) -> (r: Result<UserToken, UserError>)
        ensures
            Self::verified(r, jwt@, key@),
    {
        match jwt_decode(jwt.as_str(), key.as_bytes()) {
            Ok(raw) => match Self::complete(raw) {
                Some(token) => Ok(token),
                None => Err(UserError::Unauthorized),
            },
            Err(_) => Err(UserError::Unauthorized),
        }
    }

    /// Strict decoding at the time `now`: the signature must be valid under
    /// `key` and `now` must not be later than the expiry. Any failure is
    /// `Unauthorized`.
    pub fn decode_token_at(jwt: &String, key: &SecretKey, now: i64) -> (r: Result<
        UserToken,
        UserError,
    >)
        ensures
            Self::decoded_at(r, jwt@, key@, now),
    {
        match Self::verify_token(jwt, key) {
            Ok(token) => if now <= token.exp {
                Ok(token)
            } else {
                Err(UserError::Unauthorized)
            },
            Err(e) => Err(e),
        }
    }

    /// Strict decoding now: `decode_token_at` at the time the clock shows.
    pub fn decode_token(jwt: &String, key: &SecretKey) -> (r: Result<UserToken, UserError>)
        ensures
            exists|now: i64| is_clock_time(now) && #[trigger] Self::decoded_at(r, jwt@, key@, now),
    {
        let now = unix_time_now();
        let r = Self::decode_token_at(jwt, key, now);
        assert(Self::decoded_at(r, jwt@, key@, now));
        r
    }

    /// The token that a request carries in its `Authorization` header, given
    /// as the header's value, or `None` where the request has no such header
    /// or its value is no text.
    pub open spec fn spec_request_token(authorization: Option<&str>) -> Option<Seq<char>> {
        match authorization {
            Some(header) => bearer_token(header@),
            None => None,
        }
    }

    /// `r` is what reading the token out of a request's header gives: the
    /// token that the header carries, or `Unauthorized` where it carries none.
    pub open spec fn parsed(r: Result<String, UserError>, authorization: Option<&str>) -> bool {
        match r {
            Ok(token) => Self::spec_request_token(authorization) == Some(token@),
            Err(e) => e == UserError::Unauthorized && Self::spec_request_token(
                authorization,
            ).is_none(),
        }
    }

    /// Reads the token out of a request's `Authorization` header.
    ///
    /// The header's value must have exactly two words, the first of them
    /// `bearer` in any case; the token is the second. Anything else, and a
    /// request without the header, is `Unauthorized`.
    pub fn parse_jwt_from_request(authorization: Option<&str>) -> (r: Result<String, UserError>)
        ensures
            Self::parsed(r, authorization),
    {
        match authorization {
            Some(header) => match extract_bearer(header) {
                Some(token) => Ok(token),
                None => Err(UserError::Unauthorized),
            },
            None => Err(UserError::Unauthorized),
        }
    }

    /// The claims that a request presents for the exchange against a new
    /// token: those of the token in its header, decoded leniently.
    pub open spec fn spec_from_request(authorization: Option<&str>, key: Seq<u8>) -> Option<
        Claims,
    > {
        match Self::spec_request_token(authorization) {
            Some(token) => Self::spec_verify(token, key),
            None => None,
        }
    }

    /// Resolves the claims of a request that asks for a new token: reads the
    /// token out of the header and decodes it leniently.
    pub fn from_request(authorization: Option<&str>, key: &SecretKey) -> (r: Result<
        UserToken,
        UserError,
    >)
        ensures
            Self::answers(r, Self::spec_from_request(authorization, key@)),
    {
        match Self::parse_jwt_from_request(authorization) {
            Ok(jwt) => Self::verify_token(&jwt, key),
            Err(e) => Err(e),
        }
    }
}

/// Round trip: a token issued at `issued_at`, not more than
/// `TOKEN_TTL_SECONDS` before the epoch, and checked at a time `now` that is
/// not later than its expiry decodes strictly, for the user it was issued to
/// and with a window that does not end before it starts.
///
/// `issued` is what `generate_token_at` gave, `decoded` what
/// `decode_token_at` gave for its token.
pub proof fn lemma_round_trip(
    issued: Result<String, UserError>,
    decoded: Result<UserToken, UserError>,
    user_id: u128,
    email: Seq<char>,
    key: Seq<u8>,
    issued_at: i64,
    now: i64,
)
    requires
        UserToken::generated_at(issued, user_id, email, key, issued_at),
        issued matches Ok(token) && UserToken::answers(
            decoded,
            UserToken::spec_decode(token@, key, now as int),
        ),
        0 <= issued_at + TOKEN_TTL_SECONDS,
        now <= issued_at + TOKEN_TTL_SECONDS,
    ensures
        decoded matches Ok(claims) && {
            &&& claims.id == user_id
            &&& claims.email@ == email
            &&& claims.iat == issued_at
            &&& claims.exp == issued_at + TOKEN_TTL_SECONDS
            &&& claims.wf()
        },
{
}

/// Round trip with the clock: a token issued at a time that the clock can
/// show is there, and checked not later than its expiry it decodes strictly,
/// for the user it was issued to and with a window that does not end before
/// it starts.
///
/// `issued` is what `generate_token_at` gave at `issued_at`, which is what
/// `generate_token` gives at the time it read; `decoded` is what
/// `decode_token_at` gave for its token at `now`, and likewise `decode_token`.
pub proof fn lemma_round_trip_by_clock(
    issued: Result<String, UserError>,
    decoded: Result<UserToken, UserError>,
    user_id: u128,
    email: Seq<char>,
    key: Seq<u8>,
    issued_at: i64,
    now: i64,
)
    requires
        is_clock_time(issued_at),
        UserToken::generated_at(issued, user_id, email, key, issued_at),
        issued matches Ok(token) ==> UserToken::decoded_at(decoded, token@, key, now),
        now <= issued_at + TOKEN_TTL_SECONDS,
    ensures
        issued.is_ok(),
        decoded matches Ok(claims) && {
            &&& claims.id == user_id
            &&& claims.email@ == email
            &&& claims.iat == issued_at
            &&& claims.exp == issued_at + TOKEN_TTL_SECONDS
            &&& claims.wf()
        },
{
}

/// A token that was issued comes back unchanged out of the header that
/// presents it: it is not empty and holds no white space.
///
/// `issued` is what `generate_token_at` gave, `parsed` what
/// `parse_jwt_from_request` gave for a request whose header is `Bearer`, a
/// blank and the token.
pub proof fn lemma_issued_token_in_header(
    issued: Result<String, UserError>,
    parsed: Result<String, UserError>,
    header: &str,
    user_id: u128,
    email: Seq<char>,
    key: Seq<u8>,
    issued_at: i64,
)
    requires
        UserToken::generated_at(issued, user_id, email, key, issued_at),
        issued matches Ok(token) && header@ == bearer_header(token@),
        UserToken::parsed(parsed, Some(header)),
    ensures
        issued matches Ok(token) && parsed matches Ok(found) && found@ == token@,
{
    lemma_bearer_header(issued.unwrap()@);
}

/// Expiry: a token with a valid signature whose expiry has passed is refused
/// by strict decoding, with `Unauthorized`, and accepted by lenient decoding.
///
/// `strict` is what `decode_token_at` gave for the token at the time `now`,
/// `lenient` what `verify_token` gave.
pub proof fn lemma_expired(
    strict: Result<UserToken, UserError>,
    lenient: Result<UserToken, UserError>,
    token: Seq<char>,
    key: Seq<u8>,
    claims: Claims,
    now: i64,
)
    requires
        UserToken::answers(strict, UserToken::spec_decode(token, key, now as int)),
        UserToken::answers(lenient, UserToken::spec_verify(token, key)),
        UserToken::spec_verify(token, key) == Some(claims),
        claims.exp < now,
    ensures
        strict == Err::<UserToken, UserError>(UserError::Unauthorized),
        lenient matches Ok(found) && found@ == claims,
{
}

/// A token that lenient decoding refuses is refused by strict decoding at
/// every time, and both say `Unauthorized`.
///
/// `strict` is what `decode_token_at` gave for the token at the time `now`,
/// `lenient` what `verify_token` gave.
pub proof fn lemma_refused(
    strict: Result<UserToken, UserError>,
    lenient: Result<UserToken, UserError>,
    token: Seq<char>,
    key: Seq<u8>,
    now: i64,
)
    requires
        UserToken::answers(strict, UserToken::spec_decode(token, key, now as int)),
        UserToken::answers(lenient, UserToken::spec_verify(token, key)),
        lenient.is_err(),
    ensures
        strict == Err::<UserToken, UserError>(UserError::Unauthorized),
        lenient == Err::<UserToken, UserError>(UserError::Unauthorized),
{
}

} // verus!

use vstd::prelude::*;
use crate::claims::{Claims, ClaimsView};
use crate::error::TokenError;
use crate::secret::JwtSecret;
use crate::user::User;

verus! {

/// Seconds for which an access token is good.
pub const ACCESS_TOKEN_SECONDS: u64 = 300;

/// Seconds for which a token made by `create_jwt` is good.
pub const JWT_SECONDS: u64 = 3600;

/// Seconds for which a refresh token is good: two days.
pub const REFRESH_TOKEN_SECONDS: i64 = 172800;

/// A second that the clock never reaches: 2^31 days after the epoch.
pub const CLOCK_LIMIT: i64 = 185_542_587_187_200;

/// The error type of the jsonwebtoken crate.
#[verifier::external_type_specification]
#[verifier::external_body]
pub struct ExJwtError(jsonwebtoken::errors::Error);

/// The four claims as they were found in a signed payload. One that is
/// missing, or is not a text where a text is due or not a whole number from
/// 0 to 2^64 - 1 where a number is due, is `None`.
#[derive(Debug)]
pub struct Payload {
    pub sub: Option<String>,
    pub exp: Option<u64>,
    pub iat: Option<u64>,
    pub email: Option<String>,
}

/// A payload as plain values.
pub struct PayloadView {
    pub sub: Option<Seq<char>>,
    pub exp: Option<u64>,
    pub iat: Option<u64>,
    pub email: Option<Seq<char>>,
}

impl View for Payload {
    type V = PayloadView;

    open spec fn view(&self) -> PayloadView {
        PayloadView {
            sub: match self.sub {
                Some(text) => Some(text@),
                None => None,
            },
            exp: self.exp,
            iat: self.iat,
            email: match self.email {
                Some(text) => Some(text@),
                None => None,
            },
        }
    }
}

/// What `jsonwebtoken::decode` finds in a token under a secret when it checks
/// everything but the expiry: `None` when it reports an error (the token is
/// malformed, is not signed with HS256 under this secret, carries no numeric
/// `exp`, or names an audience), otherwise the four claims of the payload.
pub uninterp spec fn signed_payload(token: Seq<char>, secret: Seq<char>) -> Option<PayloadView>;

/// The token that `jsonwebtoken::encode` makes of these claims under a
/// secret, with the default header; `None` when it reports an error.
pub uninterp spec fn signed_token(claims: ClaimsView, secret: Seq<char>) -> Option<Seq<char>>;

/// The payload that carries exactly these claims.
pub open spec fn payload_with(claims: ClaimsView) -> PayloadView {
    PayloadView {
        sub: Some(claims.sub),
        exp: Some(claims.exp),
        iat: Some(claims.iat),
        email: Some(claims.email),
    }
}

/// The claims of a payload in which all four are present.
pub open spec fn complete_claims(payload: PayloadView) -> Option<ClaimsView> {
    if payload.sub is Some && payload.exp is Some && payload.iat is Some && payload.email is Some {
        Some(
            ClaimsView {
                sub: payload.sub->0,
                exp: payload.exp->0,
                iat: payload.iat->0,
                email: payload.email->0,
            },
        )
    } else {
        None
    }
}

/// What becomes of a token presented at second `now`, given what was found
/// in it. The expiry is exclusive: at second `exp` the token is void.
pub open spec fn verdict(found: Option<PayloadView>, now: u64) -> Result<ClaimsView, TokenError> {
    match found {
        None => Err(TokenError::Undecodable),
        Some(payload) => match complete_claims(payload) {
            None => Err(TokenError::IncompleteClaims),
            Some(claims) => if now < claims.exp {
                Ok(claims)
            } else {
                Err(TokenError::Expired)
            },
        },
    }
}

/// The outcome of a verification as plain values.
pub open spec fn outcome_view(outcome: Result<Claims, TokenError>) -> Result<
    ClaimsView,
    TokenError,
> {
    match outcome {
        Ok(claims) => Ok(claims@),
        Err(e) => Err(e),
    }
}

/// The claims of a token issued to a user at second `now` for `lifetime` seconds.
pub open spec fn issued_claims(user: User, now: u64, lifetime: u64) -> ClaimsView {
    ClaimsView { sub: user.id@, exp: (now + lifetime) as u64, iat: now, email: user.email@ }
}

/// Calls `jsonwebtoken::encode` with the default header (HS256) on a JSON
/// object that holds the four claims under the names `sub`, `exp`, `iat` and
/// `email`, in this order. Signing with HMAC draws on nothing but the claims
/// and the secret, so the answer is a function of the two. Claimed besides: a
/// token that comes back decodes, under the same secret, to the payload with
/// exactly these claims.
#[verifier::external_body]
fn jwt_encode(claims: &Claims, secret: &str) -> (outcome: Result<
    String,
    jsonwebtoken::errors::Error,
>)
    ensures
        match outcome {
            Ok(token) => signed_token(claims@, secret@) == Some(token@) && signed_payload(
                token@,
                secret@,
            ) == Some(payload_with(claims@)),
            Err(_) => signed_token(claims@, secret@) is None,
        },
{
    let mut object = serde_json::Map::new();
    object.insert("sub".to_string(), serde_json::Value::from(claims.sub.as_str()));
    object.insert("exp".to_string(), serde_json::Value::from(claims.exp));
    object.insert("iat".to_string(), serde_json::Value::from(claims.iat));
    object.insert("email".to_string(), serde_json::Value::from(claims.email.as_str()));
    let key = jsonwebtoken::EncodingKey::from_secret(secret.as_bytes());
    jsonwebtoken::encode(&jsonwebtoken::Header::default(), &object, &key)
}

/// Calls `jsonwebtoken::decode` with the default validation (HS256, `exp`
/// required) except that the expiry is not compared with the system clock,
/// and picks the four claims out of the payload. With the clock out of it,
/// the answer depends on the token and the secret alone.
#[verifier::external_body]
fn jwt_decode(token: &str, secret: &str) -> (outcome: Result<Payload, jsonwebtoken::errors::Error>)
    ensures
        match outcome {
            Ok(payload) => signed_payload(token@, secret@) == Some(payload@),
            Err(_) => signed_payload(token@, secret@) is None,
        },
{
    let mut validation = jsonwebtoken::Validation::default();
    validation.validate_exp = false;
    let key = jsonwebtoken::DecodingKey::from_secret(secret.as_bytes());
    let data = jsonwebtoken::decode::<serde_json::Value>(token, &key, &validation)?;
    Ok(Payload {
        sub: data.claims.get("sub").and_then(serde_json::Value::as_str).map(str::to_string),
        exp: data.claims.get("exp").and_then(serde_json::Value::as_u64),
        iat: data.claims.get("iat").and_then(serde_json::Value::as_u64),
        email: data.claims.get("email").and_then(serde_json::Value::as_str).map(str::to_string),
    })
}

/// Calls `chrono::Utc::now` and takes its `timestamp`: the seconds since the
/// epoch by the system clock. `now` does not return for a clock that stands
/// before the epoch, nor for a second whose day, counted from the year 1,
/// does not fit in 32 bits; so the number lies between 0 and 2^31 days.
/// Nothing else is claimed of it.
#[verifier::external_body]
pub(crate) fn unix_seconds() -> (seconds: i64)
    ensures
        0 <= seconds < CLOCK_LIMIT,
{
    chrono::Utc::now().timestamp()
}

/// Calls `uuid::Uuid::new_v4` and takes its text, the hyphenated form of 36
/// characters. The identifier is drawn at random; nothing else is claimed of
/// it.
#[verifier::external_body]
pub(crate) fn random_uuid() -> (text: String)
    ensures
        text@.len() == 36,
{
    uuid::Uuid::new_v4().to_string()
}

/// The present second by the system clock, counted from the epoch.
pub(crate) fn present_second() -> (now: u64)
    ensures
        now < CLOCK_LIMIT,
{
    unix_seconds() as u64
}

/// What is made of the signing backend's answer.
pub fn token_or_failure(outcome: Result<String, jsonwebtoken::errors::Error>) -> (result: Result<
    String,
    TokenError,
>)
    ensures
        match outcome {
            Ok(token) => result == Ok::<String, TokenError>(token),
            Err(_) => result == Err::<String, TokenError>(TokenError::Signing),
        },
{
    match outcome {
        Ok(token) => Ok(token),
        Err(_) => Err(TokenError::Signing),
    }
}

/// Decides on a token presented at second `now`, given what decoding it
/// under the secret has brought: claims that are complete and not yet
/// expired are accepted, everything else is rejected with its cause.
pub fn claims_from_payload(
    decoded: Result<Payload, jsonwebtoken::errors::Error>,
    now: u64,
) -> (outcome: Result<Claims, TokenError>)
    ensures
        outcome_view(outcome) == verdict(
            match decoded {
                Ok(payload) => Some(payload@),
                Err(_) => None,
            },
            now,
        ),
{
    let payload = match decoded {
        Ok(payload) => payload,
        Err(_) => {
            return Err(TokenError::Undecodable);
        },
    };
    match (payload.sub, payload.exp, payload.iat, payload.email) {
        (Some(sub), Some(exp), Some(iat), Some(email)) => {
            if now < exp {
                Ok(Claims::new(sub, exp, iat, email))
            } else {
                Err(TokenError::Expired)
            }
        },
        _ => Err(TokenError::IncompleteClaims),
    }
}

/// `result` is what issuing a token for a user at second `now` for
/// `lifetime` seconds gives under a secret: `ClockOutOfRange` if the expiry
/// does not fit in 64 bits; otherwise the token that signing the claims
/// makes, which decodes to these very claims, or `Signing` if signing fails.
pub open spec fn is_issue_outcome(
    result: Result<String, TokenError>,
    user: User,
    secret: Seq<char>,
    now: u64,
    lifetime: u64,
) -> bool {
    if now + lifetime > u64::MAX {
        result == Err::<String, TokenError>(TokenError::ClockOutOfRange)
    } else {
        match signed_token(issued_claims(user, now, lifetime), secret) {
            Some(text) => {
                &&& result matches Ok(token)
                &&& result->Ok_0@ == text
                &&& signed_payload(text, secret) == Some(
                    payload_with(issued_claims(user, now, lifetime)),
                )
            },
            None => result == Err::<String, TokenError>(TokenError::Signing),
        }
    }
}

/// `outcome` is what verifying a token under a secret at second `now` gives.
pub open spec fn is_verify_outcome(
    outcome: Result<Claims, TokenError>,
    token: Seq<char>,
    secret: Seq<char>,
    now: u64,
) -> bool {
    outcome_view(outcome) == verdict(signed_payload(token, secret), now)
}

/// Issues a token for a user at second `now`, good for `lifetime` seconds.
pub fn issue_at(user: &User, secret: &str, now: u64, lifetime: u64) -> (result: Result<
    String,
    TokenError,
>)
    ensures
        is_issue_outcome(result, *user, secret@, now, lifetime),
{
    if now > u64::MAX - lifetime {
        return Err(TokenError::ClockOutOfRange);
    }
    let claims = Claims::new(user.id.clone(), now + lifetime, now, user.email.clone());
    token_or_failure(jwt_encode(&claims, secret))
}

/// Verifies a token presented at second `now` under a secret.
pub fn verify_at(token: &str, secret: &str, now: u64) -> (outcome: Result<Claims, TokenError>)
    ensures
        is_verify_outcome(outcome, token@, secret@, now),
{
    claims_from_payload(jwt_decode(token, secret), now)
}

/// Issues a token for a user, good for one hour from the present second of
/// the system clock.
pub fn create_jwt(user: &User, secret: &str) -> (result: Result<String, TokenError>)
    ensures
        exists|now: u64|
            now < CLOCK_LIMIT && #[trigger] is_issue_outcome(
                result,
                *user,
                secret@,
                now,
                JWT_SECONDS,
            ),
{
    issue_at(user, secret, present_second(), JWT_SECONDS)
}

/// Verifies a token under a secret at the present second of the system clock.
pub fn verify_jwt(token: &str, secret: &str) -> (outcome: Result<Claims, TokenError>)
    ensures
        exists|now: u64|
            now < CLOCK_LIMIT && #[trigger] is_verify_outcome(outcome, token@, secret@, now),
{
    verify_at(token, secret, present_second())
}

/// Issues an access token for a user, good for five minutes from the present
/// second, signed with the installed secret. Without a secret nothing is
/// issued.
pub fn create_token(user: &User, holder: &JwtSecret) -> (result: Result<String, TokenError>)
    ensures
        holder@ is None ==> result == Err::<String, TokenError>(TokenError::MissingSecret),
        holder@ is Some ==> exists|now: u64|
            now < CLOCK_LIMIT && #[trigger] is_issue_outcome(
                result,
                *user,
                holder@->0,
                now,
                ACCESS_TOKEN_SECONDS,
            ),
{
    let secret = match holder.get() {
        Some(secret) => secret,
        None => {
            return Err(TokenError::MissingSecret);
        },
    };
    let now = present_second();
    let result = issue_at(user, secret, now, ACCESS_TOKEN_SECONDS);
    assert(is_issue_outcome(result, *user, holder@->0, now, ACCESS_TOKEN_SECONDS));
    result
}

/// Verifies an access token under the installed secret at the present
/// second. Without a secret every token is rejected.
pub fn verify_token(token: &str, holder: &JwtSecret) -> (outcome: Result<Claims, TokenError>)
    ensures
        holder@ is None ==> outcome == Err::<Claims, TokenError>(TokenError::MissingSecret),
        holder@ is Some ==> exists|now: u64|
            now < CLOCK_LIMIT && #[trigger] is_verify_outcome(outcome, token@, holder@->0, now),
{
    let secret = match holder.get() {
        Some(secret) => secret,
        None => {
            return Err(TokenError::MissingSecret);
        },
    };
    let now = present_second();
    let outcome = verify_at(token, secret, now);
    assert(is_verify_outcome(outcome, token@, holder@->0, now));
    outcome
}

/// A refresh token made at second `now`, paired with its expiry two days
/// later; no pair if that second does not fit in 64 bits.
pub open spec fn refresh_pair(token: String, now: i64) -> Result<(String, i64), TokenError> {
    if now + REFRESH_TOKEN_SECONDS <= i64::MAX {
        Ok((token, (now + REFRESH_TOKEN_SECONDS) as i64))
    } else {
        Err(TokenError::ClockOutOfRange)
    }
}

/// Pairs a refresh token made at second `now` with its expiry, two days
/// later.
pub fn refresh_token_at(token: String, now: i64) -> (result: Result<(String, i64), TokenError>)
    ensures
        result == refresh_pair(token, now),
{
    if now > i64::MAX - REFRESH_TOKEN_SECONDS {
        Err(TokenError::ClockOutOfRange)
    } else {
        Ok((token, now + REFRESH_TOKEN_SECONDS))
    }
}

/// Makes a refresh token: a random identifier of 36 characters that says
/// nothing by itself, and the second at which it expires, two days from the
/// present second of the system clock. Storing the pair is the caller's
/// business.
pub fn create_token_refresh() -> (pair: (String, i64))
    ensures
        pair.0@.len() == 36,
        exists|now: i64|
            0 <= now < CLOCK_LIMIT && #[trigger] refresh_pair(pair.0, now) == Ok::<
                (String, i64),
                TokenError,
            >(pair),
{
    let token = random_uuid();
    let now = unix_seconds();
    let pair = (token, now + REFRESH_TOKEN_SECONDS);
    assert(refresh_pair(pair.0, now) == Ok::<(String, i64), TokenError>(pair));
    pair
}

/// A token issued to a user and presented under the same secret before its
/// expiry is accepted, and the claims that come out name that user: the
/// subject is the user's identifier, the e-mail address is the user's.
pub proof fn lemma_issued_token_is_accepted(
    user: User,
    issuing: Result<String, TokenError>,
    secret: Seq<char>,
    issued: u64,
    lifetime: u64,
    now: u64,
)
    requires
        is_issue_outcome(issuing, user, secret, issued, lifetime),
        issuing is Ok,
        now < issued + lifetime,
    ensures
        verdict(signed_payload(issuing->Ok_0@, secret), now) == Ok::<ClaimsView, TokenError>(
            issued_claims(user, issued, lifetime),
        ),
        issued_claims(user, issued, lifetime).sub == user.id@,
        issued_claims(user, issued, lifetime).email == user.email@,
{
}

/// The expiry is exclusive: a token presented at the very second of its
/// expiry, or later, is rejected as expired, whatever else it holds.
pub proof fn lemma_expiry_is_exclusive(payload: PayloadView, claims: ClaimsView, now: u64)
    requires
        complete_claims(payload) == Some(claims),
        now >= claims.exp,
    ensures
        verdict(Some(payload), now) == Err::<ClaimsView, TokenError>(TokenError::Expired),
        verdict(Some(payload), claims.exp) == Err::<ClaimsView, TokenError>(TokenError::Expired),
{
}

} // verus!

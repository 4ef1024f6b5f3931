use vstd::prelude::*;
use vstd::string::StrSliceExecFns;
use crate::claims::{Claims, ClaimsView};
use crate::error::UserError;
use crate::secret::JwtSecret;
use crate::text::chars_of;
use crate::token::{present_second, signed_payload, verdict, verify_at, CLOCK_LIMIT};

verus! {

/// The guard in front of protected operations: it lets a request through
/// only with a valid access token in its `Authorization` header.
pub struct Authentication;

/// What an `Authorization` header has to begin with.
pub open spec fn bearer_prefix() -> Seq<char> {
    seq!['B', 'e', 'a', 'r', 'e', 'r', ' ']
}

/// The token of a header that reads `Bearer <token>`.
pub open spec fn bearer_token(header: Seq<char>) -> Option<Seq<char>> {
    if header.len() >= 7 && header.subrange(0, 7) == bearer_prefix() {
        Some(header.subrange(7, header.len() as int))
    } else {
        None
    }
}

/// The claims with which a request passes the guard at second `now`, if it
/// passes: it needs a header, the header has to read `Bearer <token>`, a
/// secret has to be installed, and the token has to be valid under it.
pub open spec fn authorized(
    header: Option<Seq<char>>,
    secret: Option<Seq<char>>,
    now: u64,
) -> Option<ClaimsView> {
    if header is Some && secret is Some && bearer_token(header->0) is Some {
        match verdict(signed_payload(bearer_token(header->0)->0, secret->0), now) {
            Ok(claims) => Some(claims),
            Err(_) => None,
        }
    } else {
        None
    }
}

/// Takes the token out of a header that reads `Bearer <token>`.
pub fn token_of_header(header: &str) -> (token: Option<&str>)
    ensures
        match token {
            Some(text) => bearer_token(header@) == Some(text@),
            None => bearer_token(header@) is None,
        },
{
    let chars = chars_of(header);
    if chars.len() < 7 {
        return None;
    }
    if chars[0] == 'B' && chars[1] == 'e' && chars[2] == 'a' && chars[3] == 'r' && chars[4] == 'e'
        && chars[5] == 'r' && chars[6] == ' ' {
        assert(header@.subrange(0, 7) =~= bearer_prefix());
        Some(header.substring_char(7, chars.len()))
    } else {
        assert(header@.subrange(0, 7)[0] == header@[0]);
        assert(header@.subrange(0, 7)[1] == header@[1]);
        assert(header@.subrange(0, 7)[2] == header@[2]);
        assert(header@.subrange(0, 7)[3] == header@[3]);
        assert(header@.subrange(0, 7)[4] == header@[4]);
        assert(header@.subrange(0, 7)[5] == header@[5]);
        assert(header@.subrange(0, 7)[6] == header@[6]);
        None
    }
}

/// The view of an optional header.
pub open spec fn header_view(header: Option<&str>) -> Option<Seq<char>> {
    match header {
        Some(text) => Some(text@),
        None => None,
    }
}

/// `outcome` is what the guard answers at second `now`: the claims with
/// which the request passes, or the one `InvalidCredentials`, whatever was
/// wrong.
pub open spec fn is_authorize_outcome(
    outcome: Result<Claims, UserError>,
    header: Option<Seq<char>>,
    secret: Option<Seq<char>>,
    now: u64,
) -> bool {
    match outcome {
        Ok(claims) => authorized(header, secret, now) == Some(claims@),
        Err(e) => authorized(header, secret, now) is None && e is InvalidCredentials,
    }
}

impl Authentication {
    /// Decides on a request at second `now`, given its `Authorization`
    /// header if it has one. Whatever is wrong, the answer is the same
    /// `InvalidCredentials`.
    pub fn authorize_at(header: Option<&str>, holder: &JwtSecret, now: u64) -> (outcome: Result<
        Claims,
        UserError,
    >)
        ensures
            is_authorize_outcome(outcome, header_view(header), holder@, now),
    {
        let text = match header {
            Some(text) => text,
            None => {
                return Err(UserError::InvalidCredentials);
            },
        };
        let token = match token_of_header(text) {
            Some(token) => token,
            None => {
                return Err(UserError::InvalidCredentials);
            },
        };
        let secret = match holder.get() {
            Some(secret) => secret,
            None => {
                return Err(UserError::InvalidCredentials);
            },
        };
        match verify_at(token, secret, now) {
            Ok(claims) => Ok(claims),
            Err(_) => Err(UserError::InvalidCredentials),
        }
    }

    /// Decides on a request at the present second of the system clock.
    pub fn authorize(header: Option<&str>, holder: &JwtSecret) -> (outcome: Result<
        Claims,
        UserError,
    >)
        ensures
            exists|now: u64|
                now < CLOCK_LIMIT && #[trigger] is_authorize_outcome(
                    outcome,
                    header_view(header),
                    holder@,
                    now,
                ),
    {
        Self::authorize_at(header, holder, present_second())
    }
}

} // verus!

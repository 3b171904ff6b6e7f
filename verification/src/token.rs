//! The token service: signed, time-bound identity tokens.
//!
//! A token asserts "subject = user" together with the second it was issued
//! at and the second it expires, seven days later. Signing and signature
//! checking are done by the `jsonwebtoken` crate; which claims are written,
//! which decoded payloads are accepted, and the expiry rule are decided here.

use vstd::prelude::*;

use crate::clock::unix_now;
use crate::error::{text_result, AuthError};
use crate::identifier::{format_uuid, parse_uuid, uuid_parsed, uuid_text};

verus! {

/// How long a token stays valid after it was issued: seven days, in seconds.
pub const TOKEN_LIFETIME_SECS: usize = 604_800;

/// The claim set of a token.
#[derive(Debug, Clone, PartialEq, Eq)]
pub struct Claims {
    /// The user the token speaks for, as identifier text.
    pub sub: String,
    /// The last second at which the token is accepted.
    pub exp: usize,
    /// The second at which the token was issued.
    pub iat: usize,
}

/// The mathematical value of a claim set.
pub ghost struct ClaimsView {
    pub sub: Seq<char>,
    pub exp: usize,
    pub iat: usize,
}

impl View for Claims {
    type V = ClaimsView;

    open spec fn view(&self) -> ClaimsView {
        ClaimsView { sub: self.sub@, exp: self.exp, iat: self.iat }
    }
}

/// What the payload of a token with a good signature holds under the three
/// keys that a claim set is made of. A key that is missing, or whose value is
/// not a string (for `sub`) or a non-negative integer (for the two times),
/// shows as `None`.
#[derive(Debug, Clone, PartialEq, Eq)]
pub struct Payload {
    pub sub: Option<String>,
    pub exp: Option<u64>,
    pub iat: Option<u64>,
}

/// The mathematical value of a decoded payload.
pub ghost struct PayloadFields {
    pub sub: Option<Seq<char>>,
    pub exp: Option<u64>,
    pub iat: Option<u64>,
}

impl View for Payload {
    type V = PayloadFields;

    open spec fn view(&self) -> PayloadFields {
        PayloadFields {
            sub: match self.sub {
                Some(s) => Some(s@),
                None => None,
            },
            exp: self.exp,
            iat: self.iat,
        }
    }
}

/// The payload that holds exactly the given claims.
pub open spec fn payload_of(claims: ClaimsView) -> PayloadFields {
    PayloadFields {
        sub: Some(claims.sub),
        exp: Some(claims.exp as u64),
        iat: Some(claims.iat as u64),
    }
}

/// Every character of the text is printable ASCII and no space.
pub open spec fn is_printable_ascii(text: Seq<char>) -> bool {
    forall|i: int| 0 <= i < text.len() ==> '!' <= #[trigger] text[i] <= '~'
}

/// The token that `jsonwebtoken::encode` gives for these claims under the
/// default header (HS256) and this secret.
pub uninterp spec fn jwt_encoded(claims: ClaimsView, secret: Seq<char>) -> Seq<char>;

/// The payload that `jsonwebtoken::decode` hands out for this token and
/// secret under the default validation with the expiry check switched off,
/// or `None` where it refuses the token.
pub uninterp spec fn jwt_decoded(token: Seq<char>, secret: Seq<char>) -> Option<PayloadFields>;

#[verifier::external_type_specification]
#[verifier::external_body]
pub struct ExTokenError(jsonwebtoken::errors::Error);

/// Signs a claim set with `jsonwebtoken::encode`, the claims written as a
/// JSON object with the keys `sub`, `exp`, `iat` in this order. Trusted:
/// signing succeeds (the key is a shared secret as the default header asks,
/// an object of a string and two integers always serializes, and HMAC
/// signing has no failure); the result is the crate's token for these claims
/// and this secret; it is made of base64url characters and dots; and
/// decoding it with the same secret gives the same three values back.
#[verifier::external_body]
fn encode_claims(claims: &Claims, secret: &str) -> (r: Result<String, jsonwebtoken::errors::Error>)
    ensures
        r is Ok,
        r matches Ok(token) ==> token@ == jwt_encoded(claims@, secret@),
        r matches Ok(token) ==> is_printable_ascii(token@),
        r matches Ok(token) ==> jwt_decoded(token@, secret@) == Some(payload_of(claims@)),
{
    let mut payload = serde_json::Map::new();
    payload.insert(String::from("sub"), serde_json::Value::from(claims.sub.as_str()));
    payload.insert(String::from("exp"), serde_json::Value::from(claims.exp));
    payload.insert(String::from("iat"), serde_json::Value::from(claims.iat));
    let key = jsonwebtoken::EncodingKey::from_secret(secret.as_bytes());
    jsonwebtoken::encode(&jsonwebtoken::Header::default(), &payload, &key)
}

/// Checks a token's form and signature with `jsonwebtoken::decode` and hands
/// out what its payload holds. The validation is the crate's default but for
/// the expiry check, which is switched off: the crate would read the clock
/// for it, and the expiry rule is this library's own. Trusted: the result is
/// the crate's answer for this token and secret.
#[verifier::external_body]
fn decode_payload(token: &str, secret: &str) -> (r: Result<Payload, jsonwebtoken::errors::Error>)
    ensures
        r is Ok <==> jwt_decoded(token@, secret@) is Some,
        r matches Ok(payload) ==> jwt_decoded(token@, secret@) == Some(payload@),
{
    let mut validation = jsonwebtoken::Validation::default();
    validation.validate_exp = false;
    let key = jsonwebtoken::DecodingKey::from_secret(secret.as_bytes());
    let data = jsonwebtoken::decode::<serde_json::Value>(token, &key, &validation)?;
    Ok(Payload {
        sub: data.claims.get("sub").and_then(serde_json::Value::as_str).map(String::from),
        exp: data.claims.get("exp").and_then(serde_json::Value::as_u64),
        iat: data.claims.get("iat").and_then(serde_json::Value::as_u64),
    })
}

/// A clock reading that can be written into a token together with the expiry
/// seven days after it.
pub open spec fn clock_in_range(now: int) -> bool {
    0 <= now && now + TOKEN_LIFETIME_SECS <= usize::MAX
}

/// The claims issued at second `now` for the subject `sub`.
pub open spec fn issued_claims(sub: Seq<char>, now: int) -> ClaimsView {
    ClaimsView { sub, exp: (now + TOKEN_LIFETIME_SECS) as usize, iat: now as usize }
}

impl Claims {
    /// The claim set for `sub` issued at second `now`: issued-at is `now`,
    /// expiry is exactly seven days later. `None` where the clock reading
    /// cannot be written into a token.
    pub fn issued(sub: String, now: i64) -> (r: Option<Claims>)
        ensures
            r is Some <==> clock_in_range(now as int),
            r matches Some(claims) ==> claims@ == issued_claims(sub@, now as int),
    {
        if now < 0 {
            return None;
        }
        let secs: u64 = now as u64;
        let limit: u64 = usize::MAX as u64;
        let lifetime: u64 = TOKEN_LIFETIME_SECS as u64;
        if limit < lifetime || secs > limit - lifetime {
            return None;
        }
        let iat: usize = secs as usize;
        Some(Claims { sub, exp: iat + TOKEN_LIFETIME_SECS, iat })
    }
}

/// The value of a result that holds a claim set.
pub open spec fn claims_result(r: Result<Claims, AuthError>) -> Result<ClaimsView, AuthError> {
    match r {
        Ok(claims) => Ok(claims@),
        Err(e) => Err(e),
    }
}

/// The value of a decoder's answer.
pub open spec fn decoded_view(decoded: Option<Payload>) -> Option<PayloadFields> {
    match decoded {
        Some(payload) => Some(payload@),
        None => None,
    }
}

/// What issuing a token for `user_id` at second `now` gives: the signed
/// claims, unless the clock reading cannot be written into a token.
pub open spec fn spec_generate(user_id: u128, secret: Seq<char>, now: int) -> Result<
    Seq<char>,
    AuthError,
> {
    if clock_in_range(now) {
        Ok(jwt_encoded(issued_claims(uuid_text(user_id), now), secret))
    } else {
        Err(AuthError::Clock)
    }
}

/// The rule by which a decoder's answer is accepted at second `now`: the
/// token was decoded, its payload holds a subject and both times, the times
/// fit the machine's word, and `now` is not past the expiry. Every failure is
/// the same error.
pub open spec fn spec_accept(decoded: Option<PayloadFields>, now: int) -> Result<
    ClaimsView,
    AuthError,
> {
    match decoded {
        Some(PayloadFields { sub: Some(sub), exp: Some(exp), iat: Some(iat) }) => {
            if exp <= usize::MAX && iat <= usize::MAX && now <= exp {
                Ok(ClaimsView { sub, exp: exp as usize, iat: iat as usize })
            } else {
                Err(AuthError::InvalidToken)
            }
        },
        _ => Err(AuthError::InvalidToken),
    }
}

/// What validating `token` at second `now` gives.
pub open spec fn spec_validate(token: Seq<char>, secret: Seq<char>, now: int) -> Result<
    ClaimsView,
    AuthError,
> {
    spec_accept(jwt_decoded(token, secret), now)
}

/// The user that `token` speaks for at second `now`.
pub open spec fn spec_token_user(token: Seq<char>, secret: Seq<char>, now: int) -> Result<
    u128,
    AuthError,
> {
    match spec_validate(token, secret, now) {
        Ok(claims) => match uuid_parsed(claims.sub) {
            Some(user_id) => Ok(user_id),
            None => Err(AuthError::InvalidToken),
        },
        Err(_) => Err(AuthError::InvalidToken),
    }
}

/// Up to and including the expiry of a token issued at `now`, validation
/// gives back the issued claims and the user they were issued for.
pub open spec fn recovers_user(
    token: Seq<char>,
    secret: Seq<char>,
    user_id: u128,
    now: int,
) -> bool {
    forall|later: int|
        later <= now + TOKEN_LIFETIME_SECS ==> {
            &&& #[trigger] spec_validate(token, secret, later) == Ok::<ClaimsView, AuthError>(
                issued_claims(uuid_text(user_id), now),
            )
            &&& spec_token_user(token, secret, later) == Ok::<u128, AuthError>(user_id)
        }
}

/// What holds of a token issued at second `now`.
pub open spec fn generated_at(
    r: Result<String, AuthError>,
    user_id: u128,
    secret: Seq<char>,
    now: int,
) -> bool {
    &&& text_result(r) == spec_generate(user_id, secret, now)
    &&& clock_in_range(now) ==> r is Ok
    &&& r matches Ok(token) ==> is_printable_ascii(token@)
    &&& r matches Ok(token) ==> recovers_user(token@, secret, user_id, now)
}

/// Decides whether a decoder's answer is accepted at second `now`, and
/// builds the claim set where it is.
pub fn accept_payload(decoded: Option<Payload>, now: i64) -> (r: Result<Claims, AuthError>)
    ensures
        claims_result(r) == spec_accept(decoded_view(decoded), now as int),
{
    let payload = match decoded {
        Some(payload) => payload,
        None => {
            return Err(AuthError::InvalidToken);
        },
    };
    match (payload.sub, payload.exp, payload.iat) {
        (Some(sub), Some(exp), Some(iat)) => {
            let limit: u64 = usize::MAX as u64;
            if exp > limit || iat > limit {
                return Err(AuthError::InvalidToken);
            }
            if now > 0 && now as u64 > exp {
                return Err(AuthError::InvalidToken);
            }
            Ok(Claims { sub, exp: exp as usize, iat: iat as usize })
        },
        _ => Err(AuthError::InvalidToken),
    }
}

/// Issues the token for `user_id` as of second `now`: the claims are the
/// user's identifier text, `now`, and `now` plus seven days, signed with
/// `secret`. It fails only where the clock reading cannot be written into a
/// token, whatever the secret and the user.
pub fn generate_jwt_at(user_id: u128, secret: &str, now: i64) -> (r: Result<String, AuthError>)
    ensures
        text_result(r) == spec_generate(user_id, secret@, now as int),
        clock_in_range(now as int) ==> r is Ok,
        r matches Err(e) ==> e == AuthError::Clock,
        r matches Ok(token) ==> is_printable_ascii(token@),
        r matches Ok(token) ==> recovers_user(token@, secret@, user_id, now as int),
{
    let sub = format_uuid(user_id);
    let claims = match Claims::issued(sub, now) {
        Some(claims) => claims,
        None => {
            return Err(AuthError::Clock);
        },
    };
    match encode_claims(&claims, secret) {
        Ok(token) => {
            assert(recovers_user(token@, secret@, user_id, now as int));
            Ok(token)
        },
        Err(_) => Err(AuthError::Signing),
    }
}

/// Issues the token for `user_id` as of the current second. Where the
/// machine's word holds every clock reading and its expiry, issuing always
/// succeeds.
pub fn generate_jwt(user_id: u128, secret: &str) -> (r: Result<String, AuthError>)
    ensures
        exists|now: i64| 0 <= now && #[trigger] generated_at(r, user_id, secret@, now as int),
        i64::MAX + TOKEN_LIFETIME_SECS <= usize::MAX ==> r is Ok,
        r matches Err(e) ==> e == AuthError::Clock,
{
    let now = unix_now();
    let r = generate_jwt_at(user_id, secret, now);
    assert(generated_at(r, user_id, secret@, now as int));
    r
}

/// Validates `token` as of second `now`: the signature must be good under
/// `secret`, the payload must hold a claim set, and `now` must not be past
/// its expiry. Every failure is reported as the same error.
pub fn validate_jwt_at(token: &str, secret: &str, now: i64) -> (r: Result<Claims, AuthError>)
    ensures
        claims_result(r) == spec_validate(token@, secret@, now as int),
        r matches Err(e) ==> e == AuthError::InvalidToken,
        r matches Ok(claims) ==> now <= claims.exp,
{
    match decode_payload(token, secret) {
        Ok(payload) => accept_payload(Some(payload), now),
        Err(_) => Err(AuthError::InvalidToken),
    }
}

/// Validates `token` as of the current second. The clock is read only for
/// a token whose form and signature are good.
pub fn validate_jwt(token: &str, secret: &str) -> (r: Result<Claims, AuthError>)
    ensures
        exists|now: i64|
            0 <= now && claims_result(r) == #[trigger] spec_validate(token@, secret@, now as int),
        jwt_decoded(token@, secret@) is None ==> r is Err,
        r matches Err(e) ==> e == AuthError::InvalidToken,
{
    match decode_payload(token, secret) {
        Ok(payload) => {
            let now = unix_now();
            let r = accept_payload(Some(payload), now);
            assert(claims_result(r) == spec_validate(token@, secret@, now as int));
            r
        },
        Err(_) => {
            assert(spec_validate(token@, secret@, 0i64 as int) == Err::<ClaimsView, AuthError>(
                AuthError::InvalidToken,
            ));
            Err(AuthError::InvalidToken)
        },
    }
}

/// The user that `token` speaks for as of second `now`: the token must
/// validate and its subject must read as an identifier. Every failure, this
/// one too, is reported as the same error.
pub fn token_user_at(token: &str, secret: &str, now: i64) -> (r: Result<u128, AuthError>)
    ensures
        r == spec_token_user(token@, secret@, now as int),
{
    match validate_jwt_at(token, secret, now) {
        Ok(claims) => match parse_uuid(claims.sub.as_str()) {
            Some(user_id) => Ok(user_id),
            None => Err(AuthError::InvalidToken),
        },
        Err(_) => Err(AuthError::InvalidToken),
    }
}

/// The user that `token` speaks for as of the current second. The clock is
/// read only for a token whose form and signature are good.
pub fn token_user(token: &str, secret: &str) -> (r: Result<u128, AuthError>)
    ensures
        exists|now: i64|
            0 <= now && r == #[trigger] spec_token_user(token@, secret@, now as int),
        jwt_decoded(token@, secret@) is None ==> r is Err,
        r matches Err(e) ==> e == AuthError::InvalidToken,
{
    let validated = validate_jwt(token, secret);
    let ghost now = choose|now: i64|
        0 <= now && claims_result(validated) == #[trigger] spec_validate(
            token@,
            secret@,
            now as int,
        );
    let r = match validated {
        Ok(claims) => match parse_uuid(claims.sub.as_str()) {
            Some(user_id) => Ok(user_id),
            None => Err(AuthError::InvalidToken),
        },
        Err(_) => Err(AuthError::InvalidToken),
    };
    assert(r == spec_token_user(token@, secret@, now as int));
    r
}

/// A token is rejected at every second after its expiry, whatever else it
/// holds.
pub proof fn lemma_expired_token_rejected(
    token: Seq<char>,
    secret: Seq<char>,
    exp: u64,
    now: int,
)
    requires
        jwt_decoded(token, secret) matches Some(payload) && payload.exp == Some(exp),
        now > exp,
    ensures
        spec_validate(token, secret, now) == Err::<ClaimsView, AuthError>(AuthError::InvalidToken),
        spec_token_user(token, secret, now) == Err::<u128, AuthError>(AuthError::InvalidToken),
{
}

/// A token issued at `now` is rejected at every second later than seven days
/// after `now`.
pub proof fn lemma_issued_token_expires(
    token: Seq<char>,
    secret: Seq<char>,
    sub: Seq<char>,
    now: int,
    later: int,
)
    requires
        clock_in_range(now),
        jwt_decoded(token, secret) == Some(payload_of(issued_claims(sub, now))),
        later > now + TOKEN_LIFETIME_SECS,
    ensures
        spec_validate(token, secret, later) == Err::<ClaimsView, AuthError>(AuthError::InvalidToken),
{
}

/// Validation never tells why a token was rejected: there is one error.
pub proof fn lemma_one_rejection_cause(token: Seq<char>, secret: Seq<char>, now: int)
    ensures
        spec_validate(token, secret, now) matches Err(e) ==> e == AuthError::InvalidToken,
        spec_token_user(token, secret, now) matches Err(e) ==> e == AuthError::InvalidToken,
{
}

} // verus!

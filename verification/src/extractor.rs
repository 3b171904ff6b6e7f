//! The identity extractor: from the `Authorization` header of a request to
//! an authenticated user, or to the reason why the request is turned away.
//!
//! The check is synchronous and reads nothing but the header, the signing
//! secret and the clock. It never asks whether the user still exists: a
//! token stays good until it expires.

use vstd::prelude::*;
use vstd::slice::slice_subrange;
use vstd::utf8::{
    decode_utf8, encode_utf8, encode_utf8_decode_utf8, encode_utf8_valid_utf8, is_ascii_chars,
    is_ascii_chars_encode_utf8, valid_utf8,
};

use crate::error::AuthRejection;
use crate::identifier::{parse_uuid, uuid_parsed};
use crate::token::{
    claims_result, is_printable_ascii, jwt_decoded, recovers_user, spec_validate, validate_jwt,
    validate_jwt_at, TOKEN_LIFETIME_SECS,
};

verus! {

/// The user on whose behalf a request is handled.
#[derive(Debug, Clone, Copy, PartialEq, Eq, Structural)]
pub struct AuthenticatedUser {
    pub user_id: u128,
}

/// Length of the scheme prefix `Bearer `.
pub const BEARER_PREFIX_LEN: usize = 7;

/// A byte that may stand in a header value read as text: printable ASCII,
/// the space, or the tab.
pub open spec fn is_visible_ascii(b: u8) -> bool {
    (32 <= b && b < 127) || b == 9
}

/// The header value is text: every byte is visible ASCII.
pub open spec fn is_header_text(value: Seq<u8>) -> bool {
    forall|i: int| 0 <= i < value.len() ==> is_visible_ascii(#[trigger] value[i])
}

/// The bytes of `Bearer `.
pub open spec fn bearer_prefix() -> Seq<u8> {
    seq![66u8, 101u8, 97u8, 114u8, 101u8, 114u8, 32u8]
}

/// The header value starts with `Bearer `.
pub open spec fn has_bearer_prefix(value: Seq<u8>) -> bool {
    value.len() >= BEARER_PREFIX_LEN && value.subrange(0, BEARER_PREFIX_LEN as int)
        == bearer_prefix()
}

/// ASCII bytes read as characters, one for one.
pub open spec fn ascii_text(bytes: Seq<u8>) -> Seq<char> {
    Seq::new(bytes.len(), |i: int| bytes[i] as char)
}

/// The token that a header presents: `None` stands for a request without
/// the header. The checks are made in this order, and the first that fails
/// gives the reason.
pub open spec fn spec_bearer_token(header: Option<Seq<u8>>) -> Result<Seq<char>, AuthRejection> {
    match header {
        None => Err(AuthRejection::MissingHeader),
        Some(value) => {
            if !is_header_text(value) {
                Err(AuthRejection::UndecodableHeader)
            } else if !has_bearer_prefix(value) {
                Err(AuthRejection::InvalidFormat)
            } else {
                Ok(ascii_text(value.skip(BEARER_PREFIX_LEN as int)))
            }
        },
    }
}

/// The outcome of the whole check at second `now`.
pub open spec fn spec_extract(header: Option<Seq<u8>>, secret: Seq<char>, now: int) -> Result<
    AuthenticatedUser,
    AuthRejection,
> {
    match spec_bearer_token(header) {
        Err(rejection) => Err(rejection),
        Ok(token) => match spec_validate(token, secret, now) {
            Err(_) => Err(AuthRejection::InvalidToken),
            Ok(claims) => match uuid_parsed(claims.sub) {
                None => Err(AuthRejection::InvalidUserId),
                Some(user_id) => Ok(AuthenticatedUser { user_id }),
            },
        },
    }
}

/// Reads bytes as text with `core::str::from_utf8`. Trusted: it succeeds
/// exactly on valid UTF-8, and the text it gives is the decoding of the
/// bytes.
#[verifier::external_body]
fn utf8_text(bytes: &[u8]) -> (r: Option<&str>)
    ensures
        r is Some <==> valid_utf8(bytes@),
        r matches Some(text) ==> text@ == decode_utf8(bytes@),
{
    core::str::from_utf8(bytes).ok()
}

/// ASCII bytes are valid UTF-8 and decode to themselves.
pub proof fn lemma_ascii_decodes(bytes: Seq<u8>)
    requires
        forall|i: int| 0 <= i < bytes.len() ==> #[trigger] bytes[i] < 128,
    ensures
        valid_utf8(bytes),
        decode_utf8(bytes) == ascii_text(bytes),
{
    let chars = ascii_text(bytes);
    assert forall|i: int| 0 <= i < chars.len() implies '\0' <= #[trigger] chars[i] <= '\u{7f}' by {
        assert(bytes[i] < 128);
    }
    assert(is_ascii_chars(chars));
    is_ascii_chars_encode_utf8(chars);
    assert forall|i: int| 0 <= i < bytes.len() implies encode_utf8(chars)[i] == bytes[i] by {
        assert(bytes[i] < 128);
        assert(chars[i] as u8 == encode_utf8(chars)[i]);
    }
    assert(encode_utf8(chars) =~= bytes);
    encode_utf8_valid_utf8(chars);
    encode_utf8_decode_utf8(chars);
}

/// Whether a byte may stand in a header value read as text.
pub fn visible_ascii(b: u8) -> (r: bool)
    ensures
        r == is_visible_ascii(b),
{
    (b >= 32 && b < 127) || b == 9
}

/// Whether every byte of a header value is visible ASCII.
pub fn header_is_text(value: &[u8]) -> (r: bool)
    ensures
        r == is_header_text(value@),
{
    let mut i: usize = 0;
    while i < value.len()
        invariant
            i <= value@.len(),
            forall|j: int| 0 <= j < i ==> is_visible_ascii(#[trigger] value@[j]),
        decreases value@.len() - i,
    {
        if !visible_ascii(value[i]) {
            return false;
        }
        i += 1;
    }
    true
}

/// Whether a header value starts with `Bearer `.
pub fn starts_with_bearer(value: &[u8]) -> (r: bool)
    ensures
        r == has_bearer_prefix(value@),
{
    if value.len() < BEARER_PREFIX_LEN {
        return false;
    }
    let r = value[0] == 66 && value[1] == 101 && value[2] == 97 && value[3] == 114 && value[4]
        == 101 && value[5] == 114 && value[6] == 32;
    proof {
        let head = value@.subrange(0, BEARER_PREFIX_LEN as int);
        if r {
            assert(head =~= bearer_prefix());
        } else {
            assert(head[0] == value@[0] && head[1] == value@[1] && head[2] == value@[2]
                && head[3] == value@[3] && head[4] == value@[4] && head[5] == value@[5]
                && head[6] == value@[6]);
        }
    }
    r
}

/// The token that a header presents, or why the header is refused: no
/// header; a value that is not visible ASCII; a value that does not start
/// with `Bearer `. The token is what follows the prefix.
pub fn bearer_token<'a>(header: Option<&'a [u8]>) -> (r: Result<&'a str, AuthRejection>)
    ensures
        match spec_bearer_token(
            match header {
                Some(value) => Some(value@),
                None => None,
            },
        ) {
            Ok(token) => r is Ok && r->Ok_0@ == token,
            Err(rejection) => r == Err::<&str, AuthRejection>(rejection),
        },
{
    let value = match header {
        Some(value) => value,
        None => {
            return Err(AuthRejection::MissingHeader);
        },
    };
    if !header_is_text(value) {
        return Err(AuthRejection::UndecodableHeader);
    }
    if !starts_with_bearer(value) {
        return Err(AuthRejection::InvalidFormat);
    }
    let rest = slice_subrange(value, BEARER_PREFIX_LEN, value.len());
    proof {
        assert(rest@ =~= value@.skip(BEARER_PREFIX_LEN as int));
        assert forall|i: int| 0 <= i < rest@.len() implies #[trigger] rest@[i] < 128 by {
            assert(is_visible_ascii(value@[i + BEARER_PREFIX_LEN]));
        }
        lemma_ascii_decodes(rest@);
    }
    match utf8_text(rest) {
        Some(token) => Ok(token),
        None => Err(AuthRejection::UndecodableHeader),
    }
}

/// The value of an optional header.
pub open spec fn header_view(header: Option<&[u8]>) -> Option<Seq<u8>> {
    match header {
        Some(value) => Some(value@),
        None => None,
    }
}

impl AuthenticatedUser {
    /// Runs the whole check as of second `now`. In order: the header must be
    /// there, must be visible ASCII, must start with `Bearer `; what follows
    /// must validate as a token under `secret`; the token's subject must read
    /// as a user identifier. The first step that fails gives the rejection.
    pub fn from_header_at(header: Option<&[u8]>, secret: &str, now: i64) -> (r: Result<
        AuthenticatedUser,
        AuthRejection,
    >)
        ensures
            r == spec_extract(header_view(header), secret@, now as int),
    {
        let token = match bearer_token(header) {
            Ok(token) => token,
            Err(rejection) => {
                return Err(rejection);
            },
        };
        let claims = match validate_jwt_at(token, secret, now) {
            Ok(claims) => claims,
            Err(_) => {
                return Err(AuthRejection::InvalidToken);
            },
        };
        match parse_uuid(claims.sub.as_str()) {
            Some(user_id) => Ok(AuthenticatedUser { user_id }),
            None => Err(AuthRejection::InvalidUserId),
        }
    }

    /// Runs the whole check as of the current second. The clock is read
    /// only for a token whose form and signature are good: a request without
    /// a usable header or with a forged token is turned away without it.
    pub fn from_request(header: Option<&[u8]>, secret: &str) -> (r: Result<
        AuthenticatedUser,
        AuthRejection,
    >)
        ensures
            exists|now: i64|
                0 <= now && r == #[trigger] spec_extract(header_view(header), secret@, now as int),
            spec_bearer_token(header_view(header)) matches Err(rejection) ==> r == Err::<
                AuthenticatedUser,
                AuthRejection,
            >(rejection),
    {
        let token = match bearer_token(header) {
            Ok(token) => token,
            Err(rejection) => {
                assert(spec_extract(header_view(header), secret@, 0i64 as int) == Err::<
                    AuthenticatedUser,
                    AuthRejection,
                >(rejection));
                return Err(rejection);
            },
        };
        let validated = validate_jwt(token, secret);
        let ghost now = choose|now: i64|
            0 <= now && claims_result(validated) == #[trigger] spec_validate(
                token@,
                secret@,
                now as int,
            );
        let r = match validated {
            Ok(claims) => match parse_uuid(claims.sub.as_str()) {
                Some(user_id) => Ok(AuthenticatedUser { user_id }),
                None => Err(AuthRejection::InvalidUserId),
            },
            Err(_) => Err(AuthRejection::InvalidToken),
        };
        assert(r == spec_extract(header_view(header), secret@, now as int));
        r
    }
}

/// A request is only ever authenticated as the user that the subject of its
/// token names: whatever the second, a header whose token carries `sub`
/// yields the identifier that `sub` reads as, or a rejection, and never
/// another user.
pub proof fn lemma_extract_yields_subject(
    header: Seq<u8>,
    secret: Seq<char>,
    now: int,
    sub: Seq<char>,
    user_id: u128,
)
    requires
        spec_bearer_token(Some(header)) matches Ok(token) && (jwt_decoded(token, secret) matches Some(
            payload,
        ) && payload.sub == Some(sub)),
        uuid_parsed(sub) == Some(user_id),
    ensures
        spec_extract(Some(header), secret, now) matches Ok(user) ==> user.user_id == user_id,
{
}

/// The steps that do not look at the token fail the same way at every
/// second and under every secret.
pub proof fn lemma_header_rejections(header: Option<Seq<u8>>, secret: Seq<char>, now: int)
    ensures
        header is None ==> spec_extract(header, secret, now) == Err::<
            AuthenticatedUser,
            AuthRejection,
        >(AuthRejection::MissingHeader),
        header matches Some(value) && !is_header_text(value) ==> spec_extract(header, secret, now)
            == Err::<AuthenticatedUser, AuthRejection>(AuthRejection::UndecodableHeader),
        header matches Some(value) && is_header_text(value) && !has_bearer_prefix(value)
            ==> spec_extract(header, secret, now) == Err::<AuthenticatedUser, AuthRejection>(
            AuthRejection::InvalidFormat,
        ),
{
}

/// The header value that presents `token`: `Bearer ` and the token's
/// characters as bytes.
pub open spec fn bearer_header(token: Seq<char>) -> Seq<u8> {
    bearer_prefix() + Seq::new(token.len(), |i: int| token[i] as u8)
}

/// A printable token behind `Bearer ` is read back as it was written.
pub proof fn lemma_bearer_header_presents(token: Seq<char>)
    requires
        is_printable_ascii(token),
    ensures
        spec_bearer_token(Some(bearer_header(token))) == Ok::<Seq<char>, AuthRejection>(token),
{
    let header = bearer_header(token);
    let prefix = bearer_prefix();
    assert(prefix.len() == 7);
    assert forall|i: int| 0 <= i < header.len() implies is_visible_ascii(#[trigger] header[i]) by {
        if i < 7 {
            assert(header[i] == prefix[i]);
        } else {
            assert('!' <= token[i - 7] <= '~');
            assert(header[i] == token[i - 7] as u8);
        }
    }
    assert(header.subrange(0, BEARER_PREFIX_LEN as int) =~= prefix);
    let rest = header.skip(BEARER_PREFIX_LEN as int);
    assert forall|i: int| 0 <= i < token.len() implies ascii_text(rest)[i] == token[i] by {
        assert('!' <= token[i] <= '~');
        assert(rest[i] == token[i] as u8);
    }
    assert(ascii_text(rest) =~= token);
}

/// A token issued for a user at `now`, presented behind `Bearer `,
/// authenticates that user at every second up to and including its expiry,
/// and at no second does it authenticate anyone else.
pub proof fn lemma_issued_token_authenticates(
    token: Seq<char>,
    secret: Seq<char>,
    user_id: u128,
    now: int,
    at: int,
)
    requires
        is_printable_ascii(token),
        recovers_user(token, secret, user_id, now),
    ensures
        at <= now + TOKEN_LIFETIME_SECS ==> spec_extract(Some(bearer_header(token)), secret, at)
            == Ok::<AuthenticatedUser, AuthRejection>(AuthenticatedUser { user_id }),
        spec_extract(Some(bearer_header(token)), secret, at) matches Ok(user) ==> user.user_id
            == user_id,
{
    lemma_bearer_header_presents(token);
    assert(spec_validate(token, secret, now) is Ok);
    if at <= now + TOKEN_LIFETIME_SECS {
        assert(spec_validate(token, secret, at) is Ok);
    }
}

} // verus!

//! Credential hashing: from a plaintext password to a string that is safe to
//! store, and the check of a plaintext against a stored string.
//!
//! The derivation is Argon2 with the `argon2` crate's default parameters and
//! a fresh random salt for every hash, so hashing one password twice gives
//! two different strings. The stored string carries its salt and parameters.

use vstd::prelude::*;
use vstd::string::StringSliceAdditionalSpecFns;

use crate::error::{text_result, AuthError};
use crate::models::User;

verus! {

/// Length of a fresh salt's text: 16 random bytes in base64 without padding.
pub const FRESH_SALT_LEN: usize = 22;

/// Length of the head of a stored string: algorithm, version, parameters,
/// each behind a `$`, and the `$` that opens the salt.
pub const STORED_HEAD_LEN: usize = 31;

/// Length of the tail of a stored string: the `$` that closes the salt and
/// the 32-byte hash in base64 without padding.
pub const STORED_TAIL_LEN: usize = 44;

/// The longest password, in bytes, that the hasher takes.
pub const MAX_PASSWORD_BYTES: u64 = 0xFFFF_FFFF;

/// A character of the base64 alphabet.
pub open spec fn is_base64_char(c: char) -> bool {
    ('A' <= c && c <= 'Z') || ('a' <= c && c <= 'z') || ('0' <= c && c <= '9') || c == '+' || c
        == '/'
}

/// The text of a fresh salt: 22 base64 characters that stand for exactly 16
/// bytes, so that the last one carries two bits and is `A`, `Q`, `g` or `w`.
pub open spec fn is_fresh_salt(salt: Seq<char>) -> bool {
    &&& salt.len() == FRESH_SALT_LEN
    &&& forall|i: int| 0 <= i < salt.len() ==> is_base64_char(#[trigger] salt[i])
    &&& (salt[21] == 'A' || salt[21] == 'Q' || salt[21] == 'g' || salt[21] == 'w')
}

/// The head of every string stored under the default parameters.
pub open spec fn stored_head() -> Seq<char> {
    "$argon2id$v=19$m=19456,t=2,p=1$"@
}

/// The stored string is the head, then `salt`, then `$` and the hash.
pub open spec fn carries_salt(hash: Seq<char>, salt: Seq<char>) -> bool {
    &&& hash.len() == STORED_HEAD_LEN + salt.len() + STORED_TAIL_LEN
    &&& hash.subrange(0, STORED_HEAD_LEN as int) == stored_head()
    &&& hash.subrange(STORED_HEAD_LEN as int, STORED_HEAD_LEN + salt.len()) == salt
    &&& hash[STORED_HEAD_LEN + salt.len()] == '$'
}

/// Whether the password is short enough for the hasher.
pub open spec fn is_hashable(password: &str) -> bool {
    password.spec_bytes().len() <= MAX_PASSWORD_BYTES
}

/// The string that `Argon2::default().hash_password` gives for this password
/// under the salt with this text, or `None` where the salt or the password
/// is refused.
pub uninterp spec fn argon2_hashed(password: Seq<char>, salt: Seq<char>) -> Option<Seq<char>>;

/// Whether `PasswordHash::new` takes `hash` for a stored string.
pub uninterp spec fn phc_parses(hash: Seq<char>) -> bool;

/// Whether `Argon2::default().verify_password` accepts `password` for the
/// parsed form of `hash`: the hash recomputed from the password with the
/// salt and parameters that the string carries equals the one it holds.
/// It says something only of a string that parses.
pub uninterp spec fn argon2_accepts(password: Seq<char>, hash: Seq<char>) -> bool;

#[verifier::external_type_specification]
#[verifier::external_body]
pub struct ExHashError(argon2::password_hash::Error);

/// Draws a salt with `SaltString::generate` from the system's entropy
/// source. Trusted: the text is the base64 form of 16 bytes. Which bytes is
/// left open: they differ from call to call. The generator stops the process
/// when the entropy source fails.
#[verifier::external_body]
fn fresh_salt() -> (salt: String)
    ensures
        is_fresh_salt(salt@),
{
    let salt = argon2::password_hash::SaltString::generate(
        &mut argon2::password_hash::rand_core::OsRng,
    );
    salt.as_str().to_owned()
}

/// Reads the salt with `Salt::from_b64`, hashes with
/// `Argon2::default().hash_password`, and writes the hash as a string.
/// Trusted: the result is the crate's string for this password and salt;
/// hashing succeeds under a salt of the fresh form unless the password is
/// longer than the hasher's limit; the string is the fixed head, the salt as
/// given, `$` and 43 characters; it parses, and the verifier accepts the
/// same password for it.
#[verifier::external_body]
fn argon2_hash_with(password: &str, salt: &str) -> (r: Result<
    String,
    argon2::password_hash::Error,
>)
    ensures
        r is Ok <==> argon2_hashed(password@, salt@) is Some,
        r matches Ok(hash) ==> argon2_hashed(password@, salt@) == Some(hash@),
        is_fresh_salt(salt@) && is_hashable(password) ==> r is Ok,
        r matches Ok(hash) ==> carries_salt(hash@, salt@),
        r matches Ok(hash) ==> phc_parses(hash@) && argon2_accepts(password@, hash@),
{
    let salt = argon2::password_hash::Salt::from_b64(salt)?;
    let hasher = argon2::Argon2::default();
    let hash = argon2::PasswordHasher::hash_password(&hasher, password.as_bytes(), salt)?;
    Ok(hash.to_string())
}

/// Asks `PasswordHash::new` whether the string parses. Trusted: the result
/// is the parser's answer.
#[verifier::external_body]
fn parses_as_stored(hash: &str) -> (ok: bool)
    ensures
        ok == phc_parses(hash@),
{
    argon2::PasswordHash::new(hash).is_ok()
}

/// Checks the password against a string that parses, with
/// `Argon2::default().verify_password` on its parsed form. Trusted: the
/// result is the verifier's answer.
#[verifier::external_body]
fn argon2_verify(password: &str, hash: &str) -> (ok: bool)
    requires
        phc_parses(hash@),
    ensures
        ok == argon2_accepts(password@, hash@),
{
    match argon2::PasswordHash::new(hash) {
        Ok(parsed) => {
            let verifier = argon2::Argon2::default();
            argon2::PasswordVerifier::verify_password(&verifier, password.as_bytes(), &parsed)
                .is_ok()
        },
        Err(_) => false,
    }
}

/// Whether `password` is the one that the stored string `hash` was made
/// from, as far as the verifier can tell: the string parses, and the
/// verifier accepts the password for it.
pub open spec fn password_matches(password: Seq<char>, hash: Seq<char>) -> bool {
    phc_parses(hash) && argon2_accepts(password, hash)
}

/// What hashing `password` under `salt` gives.
pub open spec fn spec_hash_with(password: Seq<char>, salt: Seq<char>) -> Result<
    Seq<char>,
    AuthError,
> {
    match argon2_hashed(password, salt) {
        Some(hash) => Ok(hash),
        None => Err(AuthError::Hashing),
    }
}

/// What holds of the outcome of hashing `password` under `salt`.
pub open spec fn hashed_with(r: Result<String, AuthError>, password: &str, salt: Seq<char>) -> bool {
    &&& text_result(r) == spec_hash_with(password@, salt)
    &&& is_fresh_salt(salt) && is_hashable(password) ==> r is Ok
    &&& r matches Ok(hash) ==> carries_salt(hash@, salt)
    &&& r matches Ok(hash) ==> password_matches(password@, hash@)
}

/// Derives the string to store for `password` under the salt with the text
/// `salt`. Password and salt fix the string. It is made under every salt of
/// the fresh form unless the password is longer than the hasher's limit; it
/// carries the salt; and `verify_password` accepts the same password for it.
pub fn hash_password_with(password: &str, salt: &str) -> (r: Result<String, AuthError>)
    ensures
        text_result(r) == spec_hash_with(password@, salt@),
        is_fresh_salt(salt@) && is_hashable(password) ==> r is Ok,
        r matches Ok(hash) ==> carries_salt(hash@, salt@),
        r matches Ok(hash) ==> password_matches(password@, hash@),
{
    match argon2_hash_with(password, salt) {
        Ok(hash) => Ok(hash),
        Err(_) => Err(AuthError::Hashing),
    }
}

/// Derives the string to store for `password` under a salt drawn for this
/// call. It fails only for a password longer than the hasher's limit.
/// Whatever string comes out, `verify_password` accepts the same password
/// for it.
pub fn hash_password(password: &str) -> (r: Result<String, AuthError>)
    ensures
        is_hashable(password) ==> r is Ok,
        exists|salt: Seq<char>| is_fresh_salt(salt) && #[trigger] hashed_with(r, password, salt),
        r matches Ok(hash) ==> password_matches(password@, hash@),
        r matches Err(e) ==> e == AuthError::Hashing,
{
    let salt = fresh_salt();
    let r = hash_password_with(password, salt.as_str());
    assert(hashed_with(r, password, salt@));
    r
}

/// Checks `password` against a stored string. A string that does not parse
/// and a wrong password give the same answer, `false`.
pub fn verify_password(password: &str, hash: &str) -> (ok: bool)
    ensures
        ok == password_matches(password@, hash@),
        !phc_parses(hash@) ==> !ok,
{
    if !parses_as_stored(hash) {
        return false;
    }
    argon2_verify(password, hash)
}

/// Whether a login is accepted: the lookup by e-mail found a user, and the
/// password is the one that the user's stored string was made from.
pub open spec fn spec_credentials_match(found: Option<&User>, password: Seq<char>) -> bool {
    match found {
        Some(user) => password_matches(password, user.password_hash@),
        None => false,
    }
}

/// Decides a login. An unknown e-mail and a wrong password give the same
/// answer, so that the caller cannot tell an outsider which accounts exist.
pub fn credentials_match(found: Option<&User>, password: &str) -> (ok: bool)
    ensures
        ok == spec_credentials_match(found, password@),
{
    match found {
        Some(user) => verify_password(password, user.password_hash.as_str()),
        None => false,
    }
}

/// Two strings stored under different salts differ, whatever the passwords.
pub proof fn lemma_salts_tell_hashes_apart(
    first: Seq<char>,
    first_salt: Seq<char>,
    second: Seq<char>,
    second_salt: Seq<char>,
)
    requires
        carries_salt(first, first_salt),
        carries_salt(second, second_salt),
        first_salt != second_salt,
    ensures
        first != second,
{
    if first == second {
        assert(first_salt.len() == second_salt.len());
        assert(first_salt =~= second_salt);
    }
}

/// Password and salt fix the stored string: two hashings of one password
/// under one salt that both give a string give the same.
pub proof fn lemma_salt_fixes_hash(
    password: Seq<char>,
    salt: Seq<char>,
    first: Seq<char>,
    second: Seq<char>,
)
    requires
        spec_hash_with(password, salt) == Ok::<Seq<char>, AuthError>(first),
        spec_hash_with(password, salt) == Ok::<Seq<char>, AuthError>(second),
    ensures
        first == second,
{
}

} // verus!

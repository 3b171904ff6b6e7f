use thought_auth::error::AuthError;
use thought_auth::models::User;
use thought_auth::password::{
    credentials_match, hash_password, hash_password_with, verify_password,
};

#[test]
fn hashed_password_verifies() {
    let hash = hash_password("correct horse battery staple").unwrap();
    assert!(verify_password("correct horse battery staple", &hash));
}

#[test]
fn empty_password_verifies_against_its_hash() {
    let hash = hash_password("").unwrap();
    assert!(verify_password("", &hash));
    assert!(!verify_password(" ", &hash));
}

#[test]
fn non_ascii_password_verifies_against_its_hash() {
    let hash = hash_password("pässwörd→✓").unwrap();
    assert!(verify_password("pässwörd→✓", &hash));
    assert!(!verify_password("passwoerd", &hash));
}

#[test]
fn other_password_is_refused() {
    let hash = hash_password("first password").unwrap();
    assert!(!verify_password("second password", &hash));
    assert!(!verify_password("first password ", &hash));
    assert!(!verify_password("First password", &hash));
}

#[test]
fn hashing_twice_gives_different_strings() {
    let one = hash_password("same input").unwrap();
    let two = hash_password("same input").unwrap();
    assert_ne!(one, two);
    assert!(verify_password("same input", &one));
    assert!(verify_password("same input", &two));
}

#[test]
fn hash_is_not_the_password() {
    let hash = hash_password("plain").unwrap();
    assert_ne!(hash, "plain");
    assert!(hash.starts_with("$argon2id$v=19$m=19456,t=2,p=1$"));
}

#[test]
fn malformed_hash_is_refused_without_error() {
    assert!(!verify_password("anything", ""));
    assert!(!verify_password("anything", "anything"));
    assert!(!verify_password("anything", "$argon2id$"));
    assert!(!verify_password("anything", "not a hash at all"));
}

#[test]
fn password_is_not_its_own_hash() {
    assert!(!verify_password("secret", "secret"));
}

#[test]
fn stored_string_names_algorithm_parameters_salt_and_hash() {
    let made = hash_password("hunter2").unwrap();
    let parts: Vec<&str> = made.split('$').collect();
    assert_eq!(parts.len(), 6);
    assert_eq!(parts[1], "argon2id");
    assert_eq!(parts[2], "v=19");
    assert_eq!(parts[3], "m=19456,t=2,p=1");
    assert_eq!(parts[4].len(), 22);
    assert_eq!(parts[5].len(), 43);
}

#[test]
fn truncated_hash_is_refused() {
    let hash = hash_password("hunter2").unwrap();
    let cut = &hash[..hash.len() - 1];
    assert!(!verify_password("hunter2", cut));
}

#[test]
fn hashing_error_is_the_only_error() {
    match hash_password("x") {
        Ok(hash) => assert!(verify_password("x", &hash)),
        Err(e) => assert_eq!(e, AuthError::Hashing),
    }
}

fn user_with(password: &str) -> User {
    User {
        id: 1,
        name: String::from("Ada"),
        email: String::from("ada@example.org"),
        password_hash: hash_password(password).unwrap(),
        created_at: 0,
        updated_at: 0,
    }
}

#[test]
fn login_is_accepted_for_the_right_password() {
    let user = user_with("open sesame");
    assert!(credentials_match(Some(&user), "open sesame"));
}

#[test]
fn login_is_refused_for_a_wrong_password_or_an_unknown_user() {
    let user = user_with("open sesame");
    assert!(!credentials_match(Some(&user), "open sesam"));
    assert!(!credentials_match(Some(&user), ""));
    assert!(!credentials_match(None, "open sesame"));
    assert!(!credentials_match(None, ""));
}

#[test]
fn login_is_refused_for_a_damaged_stored_string() {
    let mut user = user_with("open sesame");
    user.password_hash = String::from("open sesame");
    assert!(!credentials_match(Some(&user), "open sesame"));
}

const HEAD: &str = "$argon2id$v=19$m=19456,t=2,p=1$";

#[test]
fn password_and_salt_fix_the_stored_string() {
    let salt = "AAECAwQFBgcICQoLDA0ODw";
    let one = hash_password_with("same input", salt).unwrap();
    let two = hash_password_with("same input", salt).unwrap();
    assert_eq!(one, two);
    assert!(verify_password("same input", &one));
}

#[test]
fn different_salts_give_different_strings() {
    let one = hash_password_with("same input", "AAECAwQFBgcICQoLDA0ODw").unwrap();
    let two = hash_password_with("same input", "AAECAwQFBgcICQoLDA0ODg").unwrap();
    assert_ne!(one, two);
    assert!(verify_password("same input", &one));
    assert!(verify_password("same input", &two));
}

#[test]
fn different_passwords_under_one_salt_give_different_strings() {
    let salt = "AAECAwQFBgcICQoLDA0ODw";
    let one = hash_password_with("first", salt).unwrap();
    let two = hash_password_with("second", salt).unwrap();
    assert_ne!(one, two);
    assert!(!verify_password("first", &two));
    assert!(!verify_password("second", &one));
}

#[test]
fn stored_string_is_head_salt_and_hash() {
    for salt in ["AAECAwQFBgcICQoLDA0ODw", "c29tZXNhbHQ", "++//++//++//++//++//+w"] {
        let hash = hash_password_with("pw", salt).unwrap();
        assert_eq!(hash.len(), 31 + salt.len() + 44);
        assert_eq!(&hash[..31], HEAD);
        assert_eq!(&hash[31..31 + salt.len()], salt);
        assert_eq!(&hash[31 + salt.len()..32 + salt.len()], "$");
        assert!(hash[32 + salt.len()..]
            .chars()
            .all(|c| c.is_ascii_alphanumeric() || c == '+' || c == '/'));
        assert!(verify_password("pw", &hash));
    }
}

#[test]
fn every_salt_of_the_fresh_form_is_taken() {
    let salts = [
        "AAAAAAAAAAAAAAAAAAAAAA",
        "zzzzzzzzzzzzzzzzzzzzzQ",
        "0123456789+/abcdefABCg",
        "/////////////////////w",
    ];
    for salt in salts {
        assert!(hash_password_with("", salt).is_ok());
    }
}

#[test]
fn fresh_salt_has_the_fresh_form() {
    let hash = hash_password("pw").unwrap();
    let salt = &hash[31..53];
    assert_eq!(&hash[53..54], "$");
    assert!(salt.chars().all(|c| c.is_ascii_alphanumeric() || c == '+' || c == '/'));
    assert!(["A", "Q", "g", "w"].contains(&&salt[21..]));
    assert_eq!(hash_password_with("pw", salt).unwrap(), hash);
}

#[test]
fn unusable_salt_fails_the_hashing() {
    for salt in ["", "abc", "abcd", "not a salt!", "AAECAwQF$gcICQoLDA0ODw", "säääääält"] {
        assert_eq!(hash_password_with("pw", salt), Err(AuthError::Hashing));
    }
}

#[test]
fn ordinary_passwords_are_always_hashed() {
    let long = "x".repeat(100_000);
    for password in ["", " ", "pw", "pässwörd→✓", "\0\n\t", long.as_str()] {
        assert!(hash_password(password).is_ok());
    }
}

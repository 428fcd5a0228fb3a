use secret_santa::credentials::{check_signup, hash_password, is_all_alphanumeric, new_token, to_lower_hex, token_from_block};
use secret_santa::crud::{signup_inserted, signup_refused, sqlx_login, sqlx_signup, LoginStep, SignupStep};
use secret_santa::models::{LoginData, SignupData};
use secret_santa::status::Status;

fn is_lower_hex(s: &str) -> bool {
    s.chars().all(|c| c.is_ascii_digit() || ('a'..='f').contains(&c))
}

#[test]
fn lower_hex_of_bytes() {
    assert_eq!(to_lower_hex(&[0x00, 0xab, 0x0f, 0xff, 0x10]), "00ab0fff10");
    assert_eq!(to_lower_hex(&[]), "");
}

#[test]
fn password_hash_is_md5_hex() {
    assert_eq!(hash_password("password"), "5f4dcc3b5aa765d61d8327deb882cf99");
    assert_eq!(hash_password(""), "d41d8cd98f00b204e9800998ecf8427e");
}

#[test]
fn same_password_same_hash() {
    assert_eq!(hash_password("hunter22hunter"), hash_password("hunter22hunter"));
    assert_ne!(hash_password("hunter22hunter"), hash_password("hunter22hunteR"));
}

#[test]
fn tokens_are_fresh_hex() {
    let a = new_token();
    let b = new_token();
    assert_eq!(a.len(), 32);
    assert!(is_lower_hex(&a));
    assert_ne!(a, b);
}

#[test]
fn token_of_a_block() {
    // md5 of sixteen zero bytes
    assert_eq!(token_from_block(&[0u8; 16]), "4ae71336e44bf9bf79d2752e234818a5");
}

#[test]
fn alphanumeric_text() {
    assert!(is_all_alphanumeric("abcXYZ019"));
    assert!(is_all_alphanumeric("пароль"));
    assert!(!is_all_alphanumeric("pass word"));
    assert!(is_all_alphanumeric(""));
}

fn s(x: &str) -> String {
    x.to_string()
}

#[test]
fn signup_length_limits() {
    assert_eq!(check_signup(&s("alice"), &s("1234567")), Some(Status::PasswordTooShort));
    assert_eq!(check_signup(&s("alice"), &s("12345678")), None);
    assert_eq!(check_signup(&s("alice"), &s(&"x".repeat(32))), None);
    assert_eq!(check_signup(&s("alice"), &s(&"x".repeat(33))), Some(Status::PasswordTooBig));
    assert_eq!(check_signup(&s("bob"), &s("12345678")), Some(Status::UsernameTooShort));
    assert_eq!(check_signup(&s(&"n".repeat(33)), &s("12345678")), Some(Status::UsernameTooBig));
    assert_eq!(check_signup(&s(&"n".repeat(32)), &s("12345678")), None);
}

#[test]
fn signup_lengths_count_bytes() {
    // four Cyrillic letters are eight bytes
    assert_eq!(check_signup(&s("alice"), &s("пара")), None);
    assert_eq!(check_signup(&s("alice"), &s("пар")), Some(Status::PasswordTooShort));
    // "ёж" is four bytes, one short of five
    assert_eq!(check_signup(&s("ёж"), &s("12345678")), Some(Status::UsernameTooShort));
}

#[test]
fn signup_character_rules() {
    // refused only when both not ASCII and not all alphanumeric
    assert_eq!(check_signup(&s("alice"), &s("пароль!!")), Some(Status::PasswordNotAlphanumeric));
    assert_eq!(check_signup(&s("alice"), &s("pass word!")), None);
    assert_eq!(check_signup(&s("алиса!"), &s("12345678")), Some(Status::UsernameNotAlphanumeric));
    assert_eq!(check_signup(&s("алиса"), &s("12345678")), None);
    // the password is looked at before the name
    assert_eq!(check_signup(&s("алиса!"), &s("пароль!!")), Some(Status::PasswordNotAlphanumeric));
}

#[test]
fn signup_step() {
    match sqlx_signup(&SignupData { name: s("alice"), password: s("password") }) {
        SignupStep::Insert(u) => {
            assert_eq!(u.name, "alice");
            assert_eq!(u.hash_psw, "5f4dcc3b5aa765d61d8327deb882cf99");
            assert_eq!(u.token.len(), 32);
            assert!(is_lower_hex(&u.token));
        }
        other => panic!("{:?}", other),
    }
    assert!(matches!(
        sqlx_signup(&SignupData { name: s("al"), password: s("password") }),
        SignupStep::Refuse(Status::UsernameTooShort)
    ));
}

#[test]
fn signup_triples() {
    assert_eq!(
        signup_refused(Status::PasswordTooShort),
        (s("Password is too short."), String::new(), 0)
    );
    assert_eq!(signup_inserted(s("abc"), 12), (s("abc"), s("Success!"), 12));
}

#[test]
fn login_steps() {
    let d = LoginData { user_id: 6, password: s("password") };
    match sqlx_login(&d, None) {
        LoginStep::Lookup { user_id, hash_psw } => {
            assert_eq!(user_id, 6);
            assert_eq!(hash_psw, "5f4dcc3b5aa765d61d8327deb882cf99");
        }
        other => panic!("{:?}", other),
    }
    match sqlx_login(&d, Some(true)) {
        LoginStep::Renew { token } => assert_eq!(token.len(), 32),
        other => panic!("{:?}", other),
    }
    assert!(matches!(sqlx_login(&d, Some(false)), LoginStep::Refuse(Status::WrongPassword)));
}

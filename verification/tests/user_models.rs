use smart_window::domain::user::{
    LoginRequest, RegisterRequest, Token, TokenKind, Tokens, User, UserEmail, UserError,
    UserPassword, UserValidationError, Username,
};
use smart_window::clock::Timestamp;
use smart_window::ids::Uuid;

fn s(x: &str) -> String {
    x.to_string()
}

#[test]
fn username_is_trimmed() {
    let u = Username::parse(s("  Username1  ")).unwrap();
    assert_eq!(u.as_ref(), "Username1");
    assert_eq!(u.into_string(), "Username1");
}

#[test]
fn username_trims_unicode_white_space() {
    let u = Username::parse(s("\u{3000}\u{a0}Username1\u{2029}\t")).unwrap();
    assert_eq!(u.as_ref(), "Username1");
}

#[test]
fn username_too_short() {
    let e = Username::parse(s(" short ")).unwrap_err();
    assert_eq!(e, UserValidationError::InvalidUsernameLength { min: 8, max: 128, actual: 5 });
}

#[test]
fn username_length_counts_characters_not_bytes() {
    // eight characters, sixteen bytes
    let u = Username::parse(s("ééééééé1")).unwrap();
    assert_eq!(u.as_ref(), "ééééééé1");
    let e = Username::parse(s("éééé")).unwrap_err();
    assert_eq!(e, UserValidationError::InvalidUsernameLength { min: 8, max: 128, actual: 4 });
}

#[test]
fn username_bounds() {
    assert!(Username::parse("a".repeat(8)).is_ok());
    assert!(Username::parse("a".repeat(128)).is_ok());
    assert_eq!(
        Username::parse("a".repeat(129)).unwrap_err(),
        UserValidationError::InvalidUsernameLength { min: 8, max: 128, actual: 129 }
    );
    assert_eq!(
        Username::parse(s("         ")).unwrap_err(),
        UserValidationError::InvalidUsernameLength { min: 8, max: 128, actual: 0 }
    );
}

#[test]
fn email_is_trimmed_and_checked() {
    let e = UserEmail::parse(s("  example@email.com ")).unwrap();
    assert_eq!(e.as_ref(), "example@email.com");
    assert_eq!(
        UserEmail::parse(s("not an email")).unwrap_err(),
        UserValidationError::InvalidEmailAddress
    );
    assert_eq!(UserEmail::parse(s("")).unwrap_err(), UserValidationError::InvalidEmailAddress);
}

#[test]
fn password_accepted() {
    let p = UserPassword::parse(s(" Password_123 ")).unwrap();
    assert_eq!(p.as_ref(), "Password_123");
}

#[test]
fn password_length_errors() {
    assert_eq!(
        UserPassword::parse(s("Pa_1")).unwrap_err(),
        UserValidationError::InvalidPasswordLength { min: 8, max: 24, actual: 4 }
    );
    assert_eq!(
        UserPassword::parse(format!("Pa_1{}", "x".repeat(21))).unwrap_err(),
        UserValidationError::InvalidPasswordLength { min: 8, max: 24, actual: 25 }
    );
}

#[test]
fn password_missing_characters() {
    assert_eq!(
        UserPassword::parse(s("password")).unwrap_err(),
        UserValidationError::MissingCharacter {
            upper: false,
            lower: true,
            special: false,
            digit: false
        }
    );
    assert_eq!(
        UserPassword::parse(s("PASSWORD_123")).unwrap_err(),
        UserValidationError::MissingCharacter {
            upper: true,
            lower: false,
            special: true,
            digit: true
        }
    );
    // non-ASCII letters count as upper and lower case
    assert!(UserPassword::parse(s("Ünïcode_123")).is_ok());
}

#[test]
fn register_request_collects_errors_in_order() {
    match RegisterRequest::parse(s("short"), s("bad"), s("weak")) {
        Err(UserError::InvalidRegisterRequest(errs)) => assert_eq!(
            errs,
            vec![
                UserValidationError::InvalidUsernameLength { min: 8, max: 128, actual: 5 },
                UserValidationError::InvalidEmailAddress,
                UserValidationError::InvalidPasswordLength { min: 8, max: 24, actual: 4 },
            ]
        ),
        other => panic!("unexpected {:?}", other),
    }
    match RegisterRequest::parse(s("Username1"), s("bad"), s("Password_123")) {
        Err(UserError::InvalidRegisterRequest(errs)) => {
            assert_eq!(errs, vec![UserValidationError::InvalidEmailAddress])
        }
        other => panic!("unexpected {:?}", other),
    }
}

#[test]
fn register_request_accepted() {
    let r = RegisterRequest::parse(s(" Username1"), s("example@email.com "), s("Password_123"))
        .unwrap();
    assert_eq!(r.name.as_ref(), "Username1");
    assert_eq!(r.email.as_ref(), "example@email.com");
    assert_eq!(r.password.as_ref(), "Password_123");
}

#[test]
fn user_parse_checks_name_and_email_only() {
    let id = Uuid { value: 7 };
    let u = User::parse(id, s("Username1"), s("example@email.com"), s("x")).unwrap();
    assert_eq!(u.id, id);
    assert_eq!(u.name.as_ref(), "Username1");
    assert_eq!(u.password, "x");
    match User::parse(id, s("short"), s("example@email.com"), s("Password_123")) {
        Err(UserError::InvalidRegisterRequest(errs)) => assert_eq!(
            errs,
            vec![UserValidationError::InvalidUsernameLength { min: 8, max: 128, actual: 5 }]
        ),
        other => panic!("unexpected {:?}", other),
    }
}

#[test]
fn token_kind_names_round_trip() {
    assert_eq!(TokenKind::Access.as_ref(), "access");
    assert_eq!(TokenKind::Refresh.as_ref(), "refresh");
    assert_eq!(TokenKind::try_from("access").unwrap(), TokenKind::Access);
    assert_eq!(TokenKind::try_from("refresh").unwrap(), TokenKind::Refresh);
    assert!(matches!(TokenKind::try_from("Access"), Err(UserError::InvalidTokenType)));
    assert!(matches!(TokenKind::try_from(""), Err(UserError::InvalidTokenType)));
}

#[test]
fn constructors_keep_their_fields() {
    let t = Token::new(Uuid { value: 1 }, TokenKind::Refresh, Timestamp { unix_nanos: 5 }, Uuid { value: 2 });
    assert_eq!(t.id, Uuid { value: 1 });
    assert_eq!(t.kind, TokenKind::Refresh);
    assert_eq!(t.expiry, Timestamp { unix_nanos: 5 });
    assert_eq!(t.user_id, Uuid { value: 2 });
    let l = LoginRequest::new(s("a@b.c"), s("pw"));
    assert_eq!((l.email.as_str(), l.password.as_str()), ("a@b.c", "pw"));
    let k = Tokens::new(s("acc"), s("ref"));
    assert_eq!((k.access_token.as_str(), k.refresh_token.as_str()), ("acc", "ref"));
}

#[test]
fn validation_messages() {
    assert_eq!(UserValidationError::InvalidEmailAddress.message(), "Invalid email address");
    assert_eq!(
        UserValidationError::InvalidUsernameLength { min: 8, max: 128, actual: 5 }.message(),
        "Invalid username length (min: 8, max: 128, actual: 5)"
    );
    assert_eq!(
        UserValidationError::InvalidPasswordLength { min: 8, max: 24, actual: 30 }.message(),
        "Invalid password length (min: 8, max: 24, actual: 30)"
    );
    assert_eq!(
        UserValidationError::MissingCharacter { upper: true, lower: false, special: true, digit: false }
            .message(),
        "Password missing requirements (Upper: true, Lower: false, Special: true, Digit: false)"
    );
}

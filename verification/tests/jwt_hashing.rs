use smart_window::clock::Timestamp;
use smart_window::domain::user::{Token, TokenKind, UserError};
use smart_window::hashing::ArgonPasswordHasher;
use smart_window::ids::Uuid;
use smart_window::jwt::Claims;

#[test]
fn claims_of_a_token() {
    let t = Token::new(
        Uuid { value: 1 },
        TokenKind::Refresh,
        Timestamp { unix_nanos: 1_700_000_000_999_999_999 },
        Uuid { value: 2 },
    );
    let c = Claims::issued_at(&t, "iss", "aud", Timestamp { unix_nanos: -1 });
    assert_eq!(c.kind, "refresh");
    assert_eq!(c.exp, 1_700_000_000);
    assert_eq!(c.iat, -1);
    assert_eq!((c.iss.as_str(), c.aud.as_str()), ("iss", "aud"));
    assert_eq!((c.id, c.user_id), (Uuid { value: 1 }, Uuid { value: 2 }));
    let back = c.into_token().unwrap();
    assert_eq!(back.expiry, Timestamp { unix_nanos: 1_700_000_000_000_000_000 });
    assert_eq!(back.kind, TokenKind::Refresh);
}

#[test]
fn claims_round_trip_for_whole_seconds() {
    let t = Token::new(
        Uuid { value: 5 },
        TokenKind::Access,
        Timestamp { unix_nanos: -86_400_000_000_000 },
        Uuid { value: 6 },
    );
    let c = Claims::new(&t, "i", "a");
    assert_eq!(c.exp, -86_400);
    assert_eq!(c.into_token().unwrap(), t);
}

#[test]
fn claims_refused() {
    let c = Claims {
        id: Uuid { value: 1 },
        kind: "admin".into(),
        exp: 0,
        iat: 0,
        iss: "i".into(),
        aud: "a".into(),
        user_id: Uuid { value: 2 },
    };
    assert!(matches!(c.into_token(), Err(UserError::InvalidTokenType)));
    let c = Claims {
        id: Uuid { value: 1 },
        kind: "access".into(),
        exp: i64::MAX,
        iat: 0,
        iss: "i".into(),
        aud: "a".into(),
        user_id: Uuid { value: 2 },
    };
    assert!(matches!(c.into_token(), Err(UserError::InvalidToken)));
}

#[test]
fn password_hash_verifies() {
    let h = ArgonPasswordHasher;
    let hash = h.hash("Password_123").unwrap();
    assert!(hash.starts_with("$argon2id$v=19$m=19456,t=2,p=1$"));
    assert_eq!(h.verify("Password_123", &hash).unwrap(), true);
    assert_eq!(h.verify("Password_124", &hash).unwrap(), false);
    assert!(matches!(h.verify("Password_123", "not a hash"), Err(UserError::Unknown(_))));
}

fn access_claims_expiring(exp: i64) -> Claims {
    Claims {
        id: Uuid { value: 1 },
        kind: "access".into(),
        exp,
        iat: 0,
        iss: "i".into(),
        aud: "a".into(),
        user_id: Uuid { value: 2 },
    }
}

#[test]
fn claims_expiry_at_the_edges_of_the_date_range() {
    let last = access_claims_expiring(253_402_300_799).into_token().unwrap();
    assert_eq!(last.expiry, Timestamp { unix_nanos: 253_402_300_799_000_000_000 });
    assert!(matches!(
        access_claims_expiring(253_402_300_800).into_token(),
        Err(UserError::InvalidToken)
    ));
    let first = access_claims_expiring(-377_705_116_800).into_token().unwrap();
    assert_eq!(first.expiry, Timestamp { unix_nanos: -377_705_116_800_000_000_000 });
    assert!(matches!(
        access_claims_expiring(-377_705_116_801).into_token(),
        Err(UserError::InvalidToken)
    ));
}

#[test]
fn password_hash_text_not_starting_with_dollar_is_unknown_error() {
    let h = ArgonPasswordHasher;
    assert!(matches!(h.verify("Password_123", ""), Err(UserError::Unknown(_))));
    assert!(matches!(
        h.verify("Password_123", "argon2id$v=19$m=19456,t=2,p=1$c2FsdHNhbHQ$aGFzaA"),
        Err(UserError::Unknown(_))
    ));
}

use smart_window::clock::{Span, Timestamp};
use smart_window::domain::order::{OrderError, OrderRequest};
use smart_window::domain::user::{
    LoginRequest, RegisterRequest, Token, TokenKind, User, UserError,
};
use smart_window::domain::window::WindowError;
use smart_window::ids::Uuid;
use smart_window::services::{
    order_saved, place_order, windows_owner, Fresh, RegisterAction, RegisterEvent, RegisterState,
    SessionAction, SessionEvent, SessionState, TokenLifetimes,
};

const SECOND: i128 = 1_000_000_000;

fn fresh(id: u128, now: i128) -> Fresh {
    Fresh { id: Uuid { value: id }, now: Timestamp { unix_nanos: now } }
}

fn lifetimes() -> TokenLifetimes {
    TokenLifetimes { refresh: Span { nanos: 3600 * SECOND }, access: Span { nanos: 60 * SECOND } }
}

fn user() -> User {
    User::parse(Uuid { value: 42 }, "Username1".into(), "a@example.com".into(), "HASH".into()).unwrap()
}

#[test]
fn login_with_right_password() {
    let (state, action) = SessionState::start_login(LoginRequest::new("a@example.com".into(), "pw".into()));
    match action {
        SessionAction::FetchUser { email } => assert_eq!(email, "a@example.com"),
        other => panic!("unexpected {:?}", other),
    }
    let (state, action) = state.step(SessionEvent::UserFetched(Ok(user())), fresh(1, 10), lifetimes());
    match action {
        SessionAction::VerifyPassword { password, hash } => {
            assert_eq!((password.as_str(), hash.as_str()), ("pw", "HASH"))
        }
        other => panic!("unexpected {:?}", other),
    }
    let (state, action) = state.step(SessionEvent::PasswordChecked(Ok(true)), fresh(2, 20), lifetimes());
    let refresh = match action {
        SessionAction::SaveToken { token } => token,
        other => panic!("unexpected {:?}", other),
    };
    assert_eq!(
        refresh,
        Token::new(Uuid { value: 2 }, TokenKind::Refresh, Timestamp { unix_nanos: 20 + 3600 * SECOND }, Uuid { value: 42 })
    );
    let (state, action) = state.step(SessionEvent::TokenSaved(Ok(())), fresh(3, 30), lifetimes());
    match action {
        SessionAction::EncodeToken { token } => assert_eq!(
            token,
            Token::new(Uuid { value: 3 }, TokenKind::Access, Timestamp { unix_nanos: 30 + 60 * SECOND }, Uuid { value: 42 })
        ),
        other => panic!("unexpected {:?}", other),
    }
    let (state, action) = state.step(SessionEvent::TokenEncoded(Ok("ACC".into())), fresh(4, 40), lifetimes());
    match action {
        SessionAction::EncodeToken { token } => assert_eq!(token, refresh),
        other => panic!("unexpected {:?}", other),
    }
    let (_, action) = state.step(SessionEvent::TokenEncoded(Ok("REF".into())), fresh(5, 50), lifetimes());
    match action {
        SessionAction::Finish(Ok(t)) => {
            assert_eq!((t.access_token.as_str(), t.refresh_token.as_str()), ("ACC", "REF"))
        }
        other => panic!("unexpected {:?}", other),
    }
}

#[test]
fn login_with_wrong_credentials() {
    let (state, _) = SessionState::start_login(LoginRequest::new("a@example.com".into(), "pw".into()));
    let (state, _) = state.step(SessionEvent::UserFetched(Ok(user())), fresh(1, 10), lifetimes());
    let (_, action) = state.step(SessionEvent::PasswordChecked(Ok(false)), fresh(2, 20), lifetimes());
    assert!(matches!(action, SessionAction::Finish(Err(UserError::WrongCredentials))));

    let (state, _) = SessionState::start_login(LoginRequest::new("x@example.com".into(), "pw".into()));
    let (_, action) = state.step(
        SessionEvent::UserFetched(Err(UserError::UserNotFoundByEmail("x@example.com".into()))),
        fresh(1, 10),
        lifetimes(),
    );
    assert!(matches!(action, SessionAction::Finish(Err(UserError::WrongCredentials))));

    let (state, _) = SessionState::start_login(LoginRequest::new("x@example.com".into(), "pw".into()));
    let (_, action) = state.step(
        SessionEvent::UserFetched(Err(UserError::Unknown(anyhow::Error::msg("down")))),
        fresh(1, 10),
        lifetimes(),
    );
    assert!(matches!(action, SessionAction::Finish(Err(UserError::Unknown(_)))));
}

#[test]
fn refresh_session_protocol() {
    let access = Token::new(Uuid { value: 1 }, TokenKind::Access, Timestamp { unix_nanos: 0 }, Uuid { value: 42 });
    let (_, action) = SessionState::start_refresh(&access);
    assert!(matches!(action, SessionAction::Finish(Err(UserError::InvalidTokenType))));

    let refresh = Token::new(Uuid { value: 7 }, TokenKind::Refresh, Timestamp { unix_nanos: 0 }, Uuid { value: 42 });
    let (state, action) = SessionState::start_refresh(&refresh);
    match action {
        SessionAction::DeleteToken { id } => assert_eq!(id, Uuid { value: 7 }),
        other => panic!("unexpected {:?}", other),
    }
    let (_, action) = state.step(
        SessionEvent::TokenDeleted(Err(UserError::TokenNotFoundById(Uuid { value: 7 }))),
        fresh(1, 10),
        lifetimes(),
    );
    assert!(matches!(action, SessionAction::Finish(Err(UserError::InvalidToken))));

    let (state, _) = SessionState::start_refresh(&refresh);
    let (state, action) = state.step(SessionEvent::TokenDeleted(Ok(())), fresh(8, 10), lifetimes());
    match action {
        SessionAction::SaveToken { token } => {
            assert_eq!((token.id, token.kind, token.user_id), (Uuid { value: 8 }, TokenKind::Refresh, Uuid { value: 42 }))
        }
        other => panic!("unexpected {:?}", other),
    }
    let (_, action) = state.step(
        SessionEvent::TokenSaved(Err(UserError::Unknown(anyhow::Error::msg("x")))),
        fresh(9, 10),
        lifetimes(),
    );
    assert!(matches!(action, SessionAction::Finish(Err(UserError::Unknown(_)))));
}

#[test]
fn register_protocol() {
    let request = RegisterRequest::parse("Username1".into(), "a@example.com".into(), "Password_123".into()).unwrap();
    let (state, action) = RegisterState::start(request);
    match action {
        RegisterAction::HashPassword(p) => assert_eq!(p.as_ref(), "Password_123"),
        other => panic!("unexpected {:?}", other),
    }
    let (state, action) = state.step(RegisterEvent::Hashed(Ok("HASH".into())), fresh(5, 0));
    match action {
        RegisterAction::SaveUser(u) => {
            assert_eq!(u.id, Uuid { value: 5 });
            assert_eq!(u.name.as_ref(), "Username1");
            assert_eq!(u.email.as_ref(), "a@example.com");
            assert_eq!(u.password, "HASH");
        }
        other => panic!("unexpected {:?}", other),
    }
    let (_, action) = state.step(RegisterEvent::Saved(Err(UserError::EmailAlreadyExists("a@example.com".into()))), fresh(6, 0));
    assert!(matches!(action, RegisterAction::Finish(Err(UserError::EmailAlreadyExists(e))) if e == "a@example.com"));

    let request = RegisterRequest::parse("Username1".into(), "a@example.com".into(), "Password_123".into()).unwrap();
    let (state, _) = RegisterState::start(request);
    let (_, action) = state.step(RegisterEvent::Hashed(Err(UserError::Unknown(anyhow::Error::msg("x")))), fresh(5, 0));
    assert!(matches!(action, RegisterAction::Finish(Err(UserError::Unknown(_)))));
}

#[test]
fn orders_need_an_access_token() {
    let request = || OrderRequest::parse("10000".into(), "Sofia".into(), None, "Example Street".into(), None).unwrap();
    let refresh = Token::new(Uuid { value: 1 }, TokenKind::Refresh, Timestamp { unix_nanos: 0 }, Uuid { value: 42 });
    assert!(matches!(place_order(request(), &refresh, fresh(2, 5)), Err(OrderError::InvalidToken)));
    let access = Token::new(Uuid { value: 1 }, TokenKind::Access, Timestamp { unix_nanos: 0 }, Uuid { value: 42 });
    let order = place_order(request(), &access, fresh(2, 5)).unwrap();
    assert_eq!(order.id, Uuid { value: 2 });
    assert_eq!(order.created_at, Timestamp { unix_nanos: 5 });
    assert_eq!(order.delivered_at, None);
    assert_eq!(order.user_id, Uuid { value: 42 });
    assert_eq!(order.city.as_ref(), "Sofia");
    let kept = order_saved(order, Ok(())).unwrap();
    assert_eq!(kept.id, Uuid { value: 2 });
    let order = place_order(request(), &access, fresh(3, 5)).unwrap();
    assert!(matches!(order_saved(order, Err(OrderError::Unknown(anyhow::Error::msg("x")))), Err(OrderError::Unknown(_))));
}

#[test]
fn windows_need_an_access_token() {
    let refresh = Token::new(Uuid { value: 1 }, TokenKind::Refresh, Timestamp { unix_nanos: 0 }, Uuid { value: 42 });
    assert!(matches!(windows_owner(&refresh), Err(WindowError::InvalidToken)));
    let access = Token::new(Uuid { value: 1 }, TokenKind::Access, Timestamp { unix_nanos: 0 }, Uuid { value: 42 });
    assert_eq!(windows_owner(&access).unwrap(), Uuid { value: 42 });
}

#[test]
fn sampled_ids_are_random_v4() {
    let f = Fresh::sample();
    assert_eq!((f.id.value >> 76) & 0xf, 4);
    assert_eq!((f.id.value >> 62) & 0x3, 2);
    assert_ne!(Fresh::sample().id, f.id);
}

#[test]
fn token_expiry_must_stay_within_the_date_range() {
    let last = Timestamp { unix_nanos: 253_402_300_799_999_999_999 };
    assert!(last.adds_within_dates(Span { nanos: 0 }));
    assert!(!last.adds_within_dates(Span { nanos: 1 }));
    let first = Timestamp { unix_nanos: -377_705_116_800_000_000_000 };
    assert!(first.adds_within_dates(Span { nanos: 0 }));
    assert!(!first.adds_within_dates(Span { nanos: -1 }));
    assert!(!Timestamp { unix_nanos: i128::MAX }.adds_within_dates(Span { nanos: 1 }));

    let state = SessionState::AwaitingVerification { user_id: Uuid { value: 42 } };
    let near_end = Fresh {
        id: Uuid { value: 1 },
        now: Timestamp { unix_nanos: 253_402_300_000 * SECOND },
    };
    let confirmed = SessionEvent::PasswordChecked(Ok(true));
    assert!(!state.issues_in_date_range(&confirmed, near_end, lifetimes()));
    assert!(state.issues_in_date_range(&confirmed, fresh(1, 10), lifetimes()));
    let refused = SessionEvent::PasswordChecked(Ok(false));
    assert!(state.issues_in_date_range(&refused, near_end, lifetimes()));
}

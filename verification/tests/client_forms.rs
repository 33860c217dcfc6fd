use smart_window::clock::TimeOfDay;
use smart_window::client::auth::{
    bearer, needs_refresh, AuthRequestAction, AuthRequestEvent, AuthRequestState, RefreshOutcome,
};
use smart_window::client::dashboard::{token_after_request, window_card, DashboardOutcome};
use smart_window::client::login::{LoginOutcome, LoginRequest};
use smart_window::client::orders::{Order, OrderRequest, PlaceOrderOutcome};
use smart_window::client::register::{RegisterOutcome, RegisterRequest};
use smart_window::ids::Uuid;

#[test]
fn register_form_messages() {
    assert_eq!(
        RegisterRequest::parse_username("short".into()).unwrap_err(),
        "Username length must be more than 8 characters long."
    );
    assert_eq!(
        RegisterRequest::parse_username("u".repeat(129)).unwrap_err(),
        "Username length must be less than 128 characters long."
    );
    assert_eq!(RegisterRequest::parse_username(" Username1 ".into()).unwrap(), "Username1");
    assert_eq!(RegisterRequest::parse_email("nope".into()).unwrap_err(), "Invalid email address.");
    assert_eq!(RegisterRequest::parse_email(" a@example.com".into()).unwrap(), "a@example.com");
    assert_eq!(
        RegisterRequest::parse_password("Pa_1".into()).unwrap_err(),
        "Password length must be more than 8 characters long."
    );
    assert_eq!(
        RegisterRequest::parse_password("P".repeat(25)).unwrap_err(),
        "Password length must be less than 24 characters long."
    );
    assert_eq!(
        RegisterRequest::parse_password("password_1".into()).unwrap_err(),
        "Password must have at least one uppercase character."
    );
    assert_eq!(
        RegisterRequest::parse_password("PASSWORD_1".into()).unwrap_err(),
        "Password must have at least one lowercase character."
    );
    assert_eq!(
        RegisterRequest::parse_password("Password1".into()).unwrap_err(),
        "Password must have at least one special character."
    );
    assert_eq!(
        RegisterRequest::parse_password("Password_".into()).unwrap_err(),
        "Password must have at least one digit."
    );
}

#[test]
fn register_form_reports_first_refused_field() {
    assert_eq!(
        RegisterRequest::parse("short".into(), "nope".into(), "x".into()).unwrap_err(),
        "Username length must be more than 8 characters long."
    );
    assert_eq!(
        RegisterRequest::parse("Username1".into(), "nope".into(), "x".into()).unwrap_err(),
        "Invalid email address."
    );
    let r = RegisterRequest::parse("Username1".into(), "a@example.com".into(), " Password_123".into()).unwrap();
    assert_eq!((r.username.as_str(), r.email.as_str(), r.password.as_str()), ("Username1", "a@example.com", "Password_123"));
}

#[test]
fn order_form_messages() {
    let p = |pc: &str, c: &str, n: Option<&str>, s: &str| {
        OrderRequest::parse(pc.into(), c.into(), n.map(|x| x.to_string()), s.into(), None)
    };
    assert_eq!(p("1", "Sofia", None, "Street").unwrap_err(), "Postal code must be between 3-100 characters.");
    assert_eq!(p("1000", "So", None, "Street").unwrap_err(), "City must be between 3-100 characters.");
    assert_eq!(p("1000", "Sofia", Some("x"), "Street").unwrap_err(), "Neighborhood must be between 3-100 character.");
    assert_eq!(p("1000", "Sofia", None, "St").unwrap_err(), "Street must be between 3-100 characters.");
    let q = p(" 1234567890123 ", " Sofia", Some(" Center "), "Street ").unwrap();
    assert_eq!(q.postal_code, "1234567890123");
    assert_eq!(q.neighborhood, Some("Center".to_string()));
    let form = Order {
        postal_code: "1000".into(),
        city: "Sofia".into(),
        neighborhood: None,
        street: "Street".into(),
        floor_level: Some(-2),
    };
    let q = OrderRequest::try_from(form).unwrap();
    assert_eq!(q.floor_level, Some(-2));
}

#[test]
fn outcomes_of_answers() {
    assert_eq!(RegisterOutcome::from_status(Some(201)), RegisterOutcome::Created);
    assert_eq!(RegisterOutcome::from_status(Some(409)).error_message().unwrap(), "Email is already in use.");
    assert_eq!(
        RegisterOutcome::from_status(Some(500)).error_message().unwrap(),
        "A server error occurred. Please try again."
    );
    assert_eq!(RegisterOutcome::from_status(None).error_message().unwrap(), "Failed to connect to the server.");
    assert_eq!(RegisterOutcome::Created.error_message(), None);

    assert_eq!(LoginOutcome::from_status(Some(201), true), LoginOutcome::ReadToken);
    assert_eq!(LoginOutcome::from_status(Some(201), false).error_message().unwrap(), "Unexpected data format from server.");
    assert_eq!(LoginOutcome::from_status(Some(401), true).error_message().unwrap(), "Incorrect email or password.");
    assert_eq!(LoginOutcome::from_status(Some(200), true), LoginOutcome::ServerError);
    assert_eq!(LoginOutcome::from_status(None, true), LoginOutcome::Unreachable);
    let l = LoginRequest::new("a".into(), "b".into());
    assert_eq!((l.email.as_str(), l.password.as_str()), ("a", "b"));

    assert_eq!(RefreshOutcome::from_status(201), RefreshOutcome::ReadBody);
    assert_eq!(RefreshOutcome::from_status(401), RefreshOutcome::ExpiredSession);
    assert_eq!(RefreshOutcome::from_status(500), RefreshOutcome::UnexpectedStatusCode(500));
    assert!(needs_refresh(401));
    assert!(!needs_refresh(403));
    assert_eq!(bearer("abc"), "Bearer abc");

    assert_eq!(PlaceOrderOutcome::from_status(Some(201)), PlaceOrderOutcome::Complete);
    assert_eq!(PlaceOrderOutcome::from_status(Some(200)), PlaceOrderOutcome::ServerError);
    assert_eq!(PlaceOrderOutcome::from_status(None), PlaceOrderOutcome::SessionLost);

    assert_eq!(DashboardOutcome::from_status(Some(200), true), DashboardOutcome::Windows);
    assert_eq!(DashboardOutcome::from_status(Some(200), false).error_message().unwrap(), "Unexpected response from server.");
    assert_eq!(DashboardOutcome::from_status(Some(201), true), DashboardOutcome::ServerError);
    assert_eq!(DashboardOutcome::from_status(None, true), DashboardOutcome::SessionLost);
    assert_eq!(DashboardOutcome::SessionLost.error_message(), None);
}

#[test]
fn session_token_after_requests() {
    assert_eq!(token_after_request(Some("old".into()), Ok(Some("new".into()))), Some("new".to_string()));
    assert_eq!(token_after_request(Some("old".into()), Ok(None)), Some("old".to_string()));
    assert_eq!(token_after_request(Some("old".into()), Err(())), None);
}

#[test]
fn window_cards() {
    let c = window_card(
        Uuid { value: 0xa1111111_1111_4111_a111_111111111111 },
        -3,
        TimeOfDay { hour: 7, minute: 5, second: 0, nanosecond: 0 },
        TimeOfDay { hour: 22, minute: 30, second: 0, nanosecond: 0 },
    );
    assert_eq!(c.header, "Window: a1111111");
    assert_eq!(c.temperature, "Temp: -3°C");
    assert_eq!(c.wake, "Wake: 07:05");
    assert_eq!(c.bed, "Bed: 22:30");
}

#[test]
fn place_order_error_messages() {
    assert_eq!(
        PlaceOrderOutcome::ServerError.error_message().as_deref(),
        Some("A server error occurred. Please try again.")
    );
    assert_eq!(PlaceOrderOutcome::Complete.error_message(), None);
    assert_eq!(PlaceOrderOutcome::SessionLost.error_message(), None);
}

#[test]
fn authenticated_request_answered_without_refresh() {
    let (state, action) = AuthRequestState::start("tok");
    match action {
        AuthRequestAction::Send { authorization, with_body } => {
            assert_eq!(authorization, "Bearer tok");
            assert!(with_body);
        }
        other => panic!("unexpected {:?}", other),
    }
    let (state, action) = state.step(AuthRequestEvent::Answered { status: 200 });
    assert!(matches!(state, AuthRequestState::Finished));
    assert!(matches!(action, AuthRequestAction::Finish { access_token: None }));
}

#[test]
fn authenticated_request_retried_once_after_refresh() {
    let (state, _) = AuthRequestState::start("old");
    let (state, action) = state.step(AuthRequestEvent::Answered { status: 401 });
    assert!(matches!(action, AuthRequestAction::RefreshSession));
    let (state, action) = state.step(AuthRequestEvent::Refreshed { access_token: "new".into() });
    match action {
        AuthRequestAction::Send { authorization, with_body } => {
            assert_eq!(authorization, "Bearer new");
            assert!(!with_body);
        }
        other => panic!("unexpected {:?}", other),
    }
    assert!(state.accepts(&AuthRequestEvent::Answered { status: 401 }));
    assert!(!state.accepts(&AuthRequestEvent::Refreshed { access_token: "x".into() }));
    let (state, action) = state.step(AuthRequestEvent::Answered { status: 401 });
    assert!(matches!(state, AuthRequestState::Finished));
    match action {
        AuthRequestAction::Finish { access_token } => assert_eq!(access_token.as_deref(), Some("new")),
        other => panic!("unexpected {:?}", other),
    }
}

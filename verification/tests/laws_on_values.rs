use smart_window::api::get_token_header;
use smart_window::client::auth::bearer;
use smart_window::client::orders::OrderRequest as FormRequest;
use smart_window::client::register::RegisterRequest as FormRegister;
use smart_window::domain::order::{City, OrderRequest, PostalCode};
use smart_window::domain::user::{RegisterRequest, UserEmail, UserPassword, Username};
use smart_window::domain::window::PreferredWindowTemp;

#[test]
fn accepted_values_parse_again_unchanged() {
    let u = Username::parse("\t Username1 ".into()).unwrap();
    let again = Username::parse(u.as_ref().to_string()).unwrap();
    assert_eq!(again.as_ref(), u.as_ref());
    let e = UserEmail::parse(" a@example.com ".into()).unwrap();
    assert_eq!(UserEmail::parse(e.as_ref().to_string()).unwrap().as_ref(), e.as_ref());
    let p = UserPassword::parse(" Password_123 ".into()).unwrap();
    assert_eq!(UserPassword::parse(p.as_ref().to_string()).unwrap().as_ref(), p.as_ref());
    let c = City::parse("  Sofia ".into()).unwrap();
    assert_eq!(City::parse(c.as_ref().to_string()).unwrap().as_ref(), "Sofia");
    let pc = PostalCode::parse(" 1000".into()).unwrap();
    assert_eq!(PostalCode::parse(pc.as_ref().to_string()).unwrap().as_ref(), "1000");
    let t = PreferredWindowTemp::parse(12).unwrap();
    assert_eq!(PreferredWindowTemp::parse(t.temp()).unwrap(), t);
}

#[test]
fn client_bearer_header_is_read_back() {
    let header = bearer("eyJhbGciOiJIUzI1NiJ9.e30.abc");
    assert_eq!(
        get_token_header(Some(header.as_bytes())),
        Some("eyJhbGciOiJIUzI1NiJ9.e30.abc".to_string())
    );
}

#[test]
fn what_the_register_form_accepts_the_server_accepts() {
    let form = FormRegister::parse(" Username1".into(), "a@example.com ".into(), "Password_123".into())
        .unwrap();
    let server = RegisterRequest::parse(form.username.clone(), form.email.clone(), form.password.clone())
        .unwrap();
    assert_eq!(server.name.as_ref(), form.username);
    assert_eq!(server.email.as_ref(), form.email);
    assert_eq!(server.password.as_ref(), form.password);
    assert!(FormRegister::parse("Username1".into(), "a@example.com".into(), "password_123".into()).is_err());
    assert!(RegisterRequest::parse("Username1".into(), "a@example.com".into(), "password_123".into()).is_err());
}

#[test]
fn order_form_and_server_disagree_only_on_long_postal_codes() {
    let form = FormRequest::parse("1000".into(), "Sofia".into(), None, "Street".into(), Some(1)).unwrap();
    assert!(OrderRequest::parse(form.postal_code, form.city, form.neighborhood, form.street, form.floor_level).is_ok());
    // 13 characters: the form accepts, the server refuses
    let form = FormRequest::parse("1234567890123".into(), "Sofia".into(), None, "Street".into(), None).unwrap();
    assert!(OrderRequest::parse(form.postal_code, form.city, form.neighborhood, form.street, form.floor_level).is_err());
}

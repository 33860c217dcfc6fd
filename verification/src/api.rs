//! What the HTTP interface answers: error reports, response bodies and the
//! bearer token of a request.
use crate::clock::{Timestamp, TimeOfDay};
use crate::domain::order::{
    address_errors, delivery_errors, floor_view, neighborhood_view, Order, OrderError, OrderValidationError,
};
use crate::domain::user::{register_errors, Tokens, UserError, UserValidationError};
use crate::domain::window::{Window, WindowError, WindowValidationError};
use crate::ids::{uuid_text, uuid_to_string, Uuid};
use crate::text::{chars_of, concat, push_char};
use vstd::prelude::*;

verus! {

/// Body of every error answer.
#[derive(Debug)]
pub struct ErrorResponse {
    pub code: u16,
    pub message: String,
    pub details: Option<Vec<String>>,
}

/// The texts of optional details.
pub open spec fn details_view(d: Option<Vec<String>>) -> Option<Seq<Seq<char>>> {
    match d {
        Some(v) => Some(v@.map_values(|s: String| s@)),
        None => None,
    }
}

impl ErrorResponse {
    pub fn new(code: u16, message: String, details: Option<Vec<String>>) -> (r: Self)
        ensures
            r.code == code,
            r.message@ == message@,
            details_view(r.details) == details_view(details),
    {
        Self { code, message, details }
    }

    /// The answer as plain values: status code, message and details.
    pub open spec fn spec_parts(self) -> (u16, Seq<char>, Option<Seq<Seq<char>>>) {
        (self.code, self.message@, details_view(self.details))
    }
}

pub const STATUS_OK: u16 = 200;
pub const STATUS_CREATED: u16 = 201;
pub const STATUS_UNAUTHORIZED: u16 = 401;
pub const STATUS_NOT_FOUND: u16 = 404;
pub const STATUS_CONFLICT: u16 = 409;
pub const STATUS_UNPROCESSABLE_ENTITY: u16 = 422;
pub const STATUS_INTERNAL_SERVER_ERROR: u16 = 500;

/// The report a failed user request is answered with.
pub open spec fn user_error_report(e: UserError) -> (u16, Seq<char>, Option<Seq<Seq<char>>>) {
    match e {
        UserError::InvalidRegisterRequest(errors) => (
            STATUS_UNPROCESSABLE_ENTITY,
            "Invalid registration request."@,
            Some(errors@.map_values(|v: UserValidationError| v.spec_message())),
        ),
        UserError::EmailAlreadyExists(email) => (
            STATUS_CONFLICT,
            "Email: "@ + email@ + " is already used."@,
            None,
        ),
        UserError::UserNotFoundByEmail(email) => (
            STATUS_NOT_FOUND,
            "User with email: "@ + email@ + " not found."@,
            None,
        ),
        UserError::WrongCredentials => (STATUS_UNAUTHORIZED, "Wrong credentials."@, None),
        UserError::InvalidToken => (STATUS_UNAUTHORIZED, "Invalid token."@, None),
        UserError::InvalidTokenType => (STATUS_UNAUTHORIZED, "Invalid token type."@, None),
        UserError::TokenNotFoundById(id) => (
            STATUS_NOT_FOUND,
            "Token with id: "@ + uuid_text(id.value) + " not found"@,
            None,
        ),
        UserError::Unknown(_) => (STATUS_INTERNAL_SERVER_ERROR, "Internal server error."@, None),
    }
}

/// The report a failed order request is answered with.
pub open spec fn order_error_report(e: OrderError) -> (u16, Seq<char>, Option<Seq<Seq<char>>>) {
    match e {
        OrderError::InvalidOrder(errors) => (
            STATUS_UNPROCESSABLE_ENTITY,
            "Invalid order."@,
            Some(errors@.map_values(|v: OrderValidationError| v.spec_message())),
        ),
        OrderError::InvalidOrderRequest(errors) => (
            STATUS_UNPROCESSABLE_ENTITY,
            "Invalid order request."@,
            Some(errors@.map_values(|v: OrderValidationError| v.spec_message())),
        ),
        OrderError::InvalidToken => (STATUS_UNAUTHORIZED, "Invalid token."@, None),
        OrderError::Unknown(_) => (STATUS_INTERNAL_SERVER_ERROR, "Internal server error."@, None),
    }
}

/// The report a failed window request is answered with.
pub open spec fn window_error_report(e: WindowError) -> (u16, Seq<char>, Option<Seq<Seq<char>>>) {
    match e {
        WindowError::InvalidWindow(errors) => (
            STATUS_UNPROCESSABLE_ENTITY,
            "Invalid window"@,
            Some(errors@.map_values(|v: WindowValidationError| v.spec_message())),
        ),
        WindowError::InvalidToken => (STATUS_UNAUTHORIZED, "Invalid token."@, None),
        WindowError::Unknown(_) => (STATUS_INTERNAL_SERVER_ERROR, "Internal server error."@, None),
    }
}

fn user_details(errors: &Vec<UserValidationError>) -> (d: Vec<String>)
    ensures
        d@.map_values(|s: String| s@) == errors@.map_values(
            |v: UserValidationError| v.spec_message(),
        ),
{
    let mut d: Vec<String> = Vec::new();
    let mut k: usize = 0;
    while k < errors.len()
        invariant
            k <= errors@.len(),
            d@.len() == k,
            forall|i: int| 0 <= i < k ==> #[trigger] d@[i]@ == errors@[i].spec_message(),
        decreases errors.len() - k,
    {
        d.push(errors[k].message());
        k = k + 1;
    }
    assert(d@.map_values(|s: String| s@) =~= errors@.map_values(
        |v: UserValidationError| v.spec_message(),
    ));
    d
}

fn order_details(errors: &Vec<OrderValidationError>) -> (d: Vec<String>)
    ensures
        d@.map_values(|s: String| s@) == errors@.map_values(
            |v: OrderValidationError| v.spec_message(),
        ),
{
    let mut d: Vec<String> = Vec::new();
    let mut k: usize = 0;
    while k < errors.len()
        invariant
            k <= errors@.len(),
            d@.len() == k,
            forall|i: int| 0 <= i < k ==> #[trigger] d@[i]@ == errors@[i].spec_message(),
        decreases errors.len() - k,
    {
        d.push(errors[k].message());
        k = k + 1;
    }
    assert(d@.map_values(|s: String| s@) =~= errors@.map_values(
        |v: OrderValidationError| v.spec_message(),
    ));
    d
}

fn window_details(errors: &Vec<WindowValidationError>) -> (d: Vec<String>)
    ensures
        d@.map_values(|s: String| s@) == errors@.map_values(
            |v: WindowValidationError| v.spec_message(),
        ),
{
    let mut d: Vec<String> = Vec::new();
    let mut k: usize = 0;
    while k < errors.len()
        invariant
            k <= errors@.len(),
            d@.len() == k,
            forall|i: int| 0 <= i < k ==> #[trigger] d@[i]@ == errors@[i].spec_message(),
        decreases errors.len() - k,
    {
        d.push(errors[k].message());
        k = k + 1;
    }
    assert(d@.map_values(|s: String| s@) =~= errors@.map_values(
        |v: WindowValidationError| v.spec_message(),
    ));
    d
}

/// `"{head}{middle}{tail}"`.
fn surround(head: &str, middle: &str, tail: &str) -> (r: String)
    ensures
        r@ == head@ + middle@ + tail@,
{
    let r = String::from_str(head);
    let r = concat(r, middle);
    concat(r, tail)
}

impl UserError {
    /// The report this error is answered with (the body of its response).
    pub fn error_response(self) -> (r: ErrorResponse)
        ensures
            r.spec_parts() == user_error_report(self),
    {
        match self {
            UserError::InvalidRegisterRequest(errors) => ErrorResponse::new(
                STATUS_UNPROCESSABLE_ENTITY,
                String::from_str("Invalid registration request."),
                Some(user_details(&errors)),
            ),
            UserError::EmailAlreadyExists(email) => ErrorResponse::new(
                STATUS_CONFLICT,
                surround("Email: ", email.as_str(), " is already used."),
                None,
            ),
            UserError::UserNotFoundByEmail(email) => ErrorResponse::new(
                STATUS_NOT_FOUND,
                surround("User with email: ", email.as_str(), " not found."),
                None,
            ),
            UserError::WrongCredentials => ErrorResponse::new(
                STATUS_UNAUTHORIZED,
                String::from_str("Wrong credentials."),
                None,
            ),
            UserError::InvalidToken => ErrorResponse::new(
                STATUS_UNAUTHORIZED,
                String::from_str("Invalid token."),
                None,
            ),
            UserError::InvalidTokenType => ErrorResponse::new(
                STATUS_UNAUTHORIZED,
                String::from_str("Invalid token type."),
                None,
            ),
            UserError::TokenNotFoundById(id) => ErrorResponse::new(
                STATUS_NOT_FOUND,
                surround("Token with id: ", uuid_to_string(id).as_str(), " not found"),
                None,
            ),
            UserError::Unknown(_) => ErrorResponse::new(
                STATUS_INTERNAL_SERVER_ERROR,
                String::from_str("Internal server error."),
                None,
            ),
        }
    }
}

impl OrderError {
    /// The report this error is answered with (the body of its response).
    pub fn error_response(self) -> (r: ErrorResponse)
        ensures
            r.spec_parts() == order_error_report(self),
    {
        match self {
            OrderError::InvalidOrder(errors) => ErrorResponse::new(
                STATUS_UNPROCESSABLE_ENTITY,
                String::from_str("Invalid order."),
                Some(order_details(&errors)),
            ),
            OrderError::InvalidOrderRequest(errors) => ErrorResponse::new(
                STATUS_UNPROCESSABLE_ENTITY,
                String::from_str("Invalid order request."),
                Some(order_details(&errors)),
            ),
            OrderError::InvalidToken => ErrorResponse::new(
                STATUS_UNAUTHORIZED,
                String::from_str("Invalid token."),
                None,
            ),
            OrderError::Unknown(_) => ErrorResponse::new(
                STATUS_INTERNAL_SERVER_ERROR,
                String::from_str("Internal server error."),
                None,
            ),
        }
    }
}

impl WindowError {
    /// The report this error is answered with (the body of its response).
    pub fn error_response(self) -> (r: ErrorResponse)
        ensures
            r.spec_parts() == window_error_report(self),
    {
        match self {
            WindowError::InvalidWindow(errors) => ErrorResponse::new(
                STATUS_UNPROCESSABLE_ENTITY,
                String::from_str("Invalid window"),
                Some(window_details(&errors)),
            ),
            WindowError::InvalidToken => ErrorResponse::new(
                STATUS_UNAUTHORIZED,
                String::from_str("Invalid token."),
                None,
            ),
            WindowError::Unknown(_) => ErrorResponse::new(
                STATUS_INTERNAL_SERVER_ERROR,
                String::from_str("Internal server error."),
                None,
            ),
        }
    }
}

/// Response from successful login or refreshing a session.
#[derive(Debug)]
pub struct TokensResponse {
    pub refresh_token: String,
    pub access_token: String,
}

impl TokensResponse {
    pub fn from(tokens: Tokens) -> (r: Self)
        ensures
            r.refresh_token@ == tokens.refresh_token@,
            r.access_token@ == tokens.access_token@,
    {
        Self { refresh_token: tokens.refresh_token, access_token: tokens.access_token }
    }
}

/// The body an order is answered with.
#[derive(Debug)]
pub struct OrderResponse {
    pub id: Uuid,
    pub postal_code: String,
    pub city: String,
    pub neighborhood: Option<String>,
    pub street: String,
    pub floor_level: Option<i16>,
    pub created_at: Timestamp,
    pub delivered_at: Option<Timestamp>,
}

impl OrderResponse {
    pub fn from(value: Order) -> (r: Self)
        ensures
            r.id == value.id,
            r.postal_code@ == value.postal_code@,
            r.city@ == value.city@,
            crate::domain::order::option_view(r.neighborhood) == neighborhood_view(
                value.neighborhood,
            ),
            r.street@ == value.street@,
            r.floor_level == floor_view(value.floor_level),
            r.created_at == value.created_at,
            r.delivered_at == value.delivered_at,
    {
        let neighborhood = match value.neighborhood {
            Some(n) => Some(n.into_string()),
            None => None,
        };
        let floor_level = match value.floor_level {
            Some(f) => Some(f.level()),
            None => None,
        };
        Self {
            id: value.id,
            postal_code: value.postal_code.into_string(),
            city: value.city.into_string(),
            neighborhood,
            street: value.street.into_string(),
            floor_level,
            created_at: value.created_at,
            delivered_at: value.delivered_at,
        }
    }
}

/// The body a window is answered with.
#[derive(Debug, Clone, Copy)]
pub struct WindowResponse {
    pub id: Uuid,
    pub preferred_temperature: i16,
    pub preferred_wakeup_time: TimeOfDay,
    pub preferred_bedtime: TimeOfDay,
}

impl WindowResponse {
    pub fn from(window: Window) -> (r: Self)
        ensures
            r.id == window.id,
            r.preferred_temperature == window.preferred_temperature.spec_temp(),
            r.preferred_wakeup_time == window.preferred_wake_up_time,
            r.preferred_bedtime == window.preferred_bedtime,
    {
        Self {
            id: window.id,
            preferred_temperature: window.preferred_temperature.temp(),
            preferred_wakeup_time: window.preferred_wake_up_time,
            preferred_bedtime: window.preferred_bedtime,
        }
    }
}

/// Whether every byte is visible ASCII or a tab, which is when
/// `http::HeaderValue::to_str` succeeds.
pub open spec fn is_visible_ascii(b: u8) -> bool {
    32 <= b < 127 || b == 9
}

/// The text of a header value whose bytes are all visible ASCII.
pub open spec fn header_text(bytes: Seq<u8>) -> Option<Seq<char>> {
    if forall|i: int| 0 <= i < bytes.len() ==> is_visible_ascii(#[trigger] bytes[i]) {
        Some(bytes.map_values(|b: u8| b as char))
    } else {
        None
    }
}

/// The bearer token of a request whose `Authorization` header value is
/// `authorization`: the text after `"Bearer "`.
pub open spec fn bearer_token(authorization: Option<Seq<u8>>) -> Option<Seq<char>> {
    match authorization {
        None => None,
        Some(bytes) => match header_text(bytes) {
            None => None,
            Some(t) => if "Bearer "@.is_prefix_of(t) {
                Some(t.skip("Bearer "@.len() as int))
            } else {
                None
            },
        },
    }
}

fn header_value_text(bytes: &[u8]) -> (r: Option<String>)
    ensures
        match (r, header_text(bytes@)) {
            (Some(s), Some(t)) => s@ == t,
            (None, None) => true,
            _ => false,
        },
{
    let mut s = String::new();
    let mut k: usize = 0;
    while k < bytes.len()
        invariant
            k <= bytes@.len(),
            s@ == bytes@.subrange(0, k as int).map_values(|b: u8| b as char),
            forall|i: int| 0 <= i < k ==> is_visible_ascii(#[trigger] bytes@[i]),
        decreases bytes.len() - k,
    {
        let b = bytes[k];
        if !((32 <= b && b < 127) || b == 9) {
            return None;
        }
        push_char(&mut s, b as char);
        assert(bytes@.subrange(0, k + 1).map_values(|b: u8| b as char) =~= bytes@.subrange(
            0,
            k as int,
        ).map_values(|b: u8| b as char).push(b as char));
        k = k + 1;
    }
    assert(bytes@.subrange(0, k as int) =~= bytes@);
    Some(s)
}

/// `s` without `prefix`, when it starts with it (`str::strip_prefix`).
pub fn strip_prefix(s: &str, prefix: &str) -> (r: Option<String>)
    ensures
        match r {
            Some(t) => prefix@.is_prefix_of(s@) && t@ == s@.skip(prefix@.len() as int),
            None => !prefix@.is_prefix_of(s@),
        },
{
    let x = chars_of(s);
    let p = chars_of(prefix);
    if p.len() > x.len() {
        return None;
    }
    let mut k: usize = 0;
    while k < p.len()
        invariant
            k <= p@.len() <= x@.len(),
            x@ == s@,
            p@ == prefix@,
            forall|i: int| 0 <= i < k ==> p@[i] == x@[i],
        decreases p.len() - k,
    {
        if p[k] != x[k] {
            return None;
        }
        k = k + 1;
    }
    let rest = s.substring_char(p.len(), x.len());
    assert(rest@ =~= s@.skip(prefix@.len() as int));
    Some(String::from_str(rest))
}

/// The bearer token of a request, from its `Authorization` header value.
pub fn get_token_header(authorization: Option<&[u8]>) -> (r: Option<String>)
    ensures
        match (r, bearer_token(match authorization {
            Some(b) => Some(b@),
            None => None,
        })) {
            (Some(s), Some(t)) => s@ == t,
            (None, None) => true,
            _ => false,
        },
{
    match authorization {
        None => None,
        Some(bytes) => match header_value_text(bytes) {
            None => None,
            Some(text) => strip_prefix(text.as_str(), "Bearer "),
        },
    }
}

/// The token a request presents: its bearer token, else its refresh-token
/// cookie; a request with neither is refused as holding no valid token.
pub fn select_raw_token(header: Option<String>, cookie: Option<String>) -> (r: Result<
    String,
    UserError,
>)
    ensures
        match (header, cookie) {
            (Some(h), _) => r matches Ok(t) && t@ == h@,
            (None, Some(c)) => r matches Ok(t) && t@ == c@,
            (None, None) => r matches Err(UserError::InvalidToken),
        },
{
    match header {
        Some(h) => Ok(h),
        None => match cookie {
            Some(c) => Ok(c),
            None => Err(UserError::InvalidToken),
        },
    }
}

/// The bytes of an ASCII text.
pub open spec fn ascii_bytes(t: Seq<char>) -> Seq<u8> {
    t.map_values(|c: char| (c as u32) as u8)
}

proof fn lemma_visible_char(c: char)
    requires
        32 <= (c as u32) < 127,
    ensures
        is_visible_ascii((c as u32) as u8),
        ((c as u32) as u8) as char == c,
{
    let u = c as u32;
    assert((u as u8) as u32 == u) by (bit_vector)
        requires
            u < 127,
    ;
}

/// A token of visible ASCII characters, sent in an `Authorization` header
/// as `"Bearer {token}"` the way the client writes it, is read back as that
/// token.
pub proof fn bearer_header_round_trip(token: Seq<char>)
    requires
        forall|i: int| 0 <= i < token.len() ==> 32 <= #[trigger] (token[i] as u32) < 127,
    ensures
        bearer_token(Some(ascii_bytes(crate::client::auth::bearer_header(token)))) == Some(token),
{
    reveal_strlit("Bearer ");
    let h = crate::client::auth::bearer_header(token);
    let b = ascii_bytes(h);
    assert forall|i: int| 0 <= i < h.len() implies 32 <= #[trigger] (h[i] as u32) < 127 by {
        if i >= 7 {
            assert(h[i] == token[i - 7]);
        }
    }
    assert forall|i: int| 0 <= i < b.len() implies is_visible_ascii(#[trigger] b[i]) by {
        lemma_visible_char(h[i]);
    }
    let t = b.map_values(|x: u8| x as char);
    assert forall|i: int| 0 <= i < h.len() implies #[trigger] t[i] == h[i] by {
        lemma_visible_char(h[i]);
    }
    assert(t =~= h);
    assert("Bearer "@.is_prefix_of(h)) by {
        assert(h.subrange(0, 7) =~= "Bearer "@);
    }
    assert(h.skip(7) =~= token);
}

/// A registration refused for its fields is answered with status 422 and
/// one message per refused field, in the order name, email, password.
pub proof fn refused_registration_is_answered(
    name: Seq<char>,
    email: Seq<char>,
    password: Seq<char>,
    errors: Vec<UserValidationError>,
)
    requires
        errors@ == register_errors(name, email, password),
        errors@.len() > 0,
    ensures
        user_error_report(UserError::InvalidRegisterRequest(errors)) == (
            STATUS_UNPROCESSABLE_ENTITY,
            "Invalid registration request."@,
            Some(
                register_errors(name, email, password).map_values(
                    |v: UserValidationError| v.spec_message(),
                ),
            ),
        ),
{
}

/// An order refused for its fields is answered with status 422 and one
/// message per refused field, in the order postal code, city, neighborhood,
/// street, floor level, delivery time.
pub proof fn refused_order_is_answered(
    postal_code: Seq<char>,
    city: Seq<char>,
    neighborhood: Option<Seq<char>>,
    street: Seq<char>,
    floor_level: Option<i16>,
    created_at: Timestamp,
    delivered_at: Option<Timestamp>,
    errors: Vec<OrderValidationError>,
)
    requires
        errors@ == address_errors(postal_code, city, neighborhood, street, floor_level)
            + delivery_errors(created_at, delivered_at),
        errors@.len() > 0,
    ensures
        order_error_report(OrderError::InvalidOrder(errors)) == (
            STATUS_UNPROCESSABLE_ENTITY,
            "Invalid order."@,
            Some(
                (address_errors(postal_code, city, neighborhood, street, floor_level)
                    + delivery_errors(created_at, delivered_at)).map_values(
                    |v: OrderValidationError| v.spec_message(),
                ),
            ),
        ),
{
}

/// Refused credentials and refused tokens are answered with status 401:
/// wrong credentials, an invalid token, a token of the wrong kind, and a
/// refresh token offered for an order or for the windows.
pub proof fn refusals_are_unauthorized()
    ensures
        user_error_report(UserError::WrongCredentials).0 == STATUS_UNAUTHORIZED,
        user_error_report(UserError::InvalidToken).0 == STATUS_UNAUTHORIZED,
        user_error_report(UserError::InvalidTokenType).0 == STATUS_UNAUTHORIZED,
        order_error_report(OrderError::InvalidToken).0 == STATUS_UNAUTHORIZED,
        window_error_report(WindowError::InvalidToken).0 == STATUS_UNAUTHORIZED,
{
}

} // verus!

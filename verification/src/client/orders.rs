//! The order form.
use crate::domain::order::{address_errors, POSTAL_CODE_MAX_LENGTH};
use crate::text::{concat, decimal, decimal_string, trim_and_count, trimmed};
use vstd::prelude::*;

verus! {

pub const FIELD_MIN_LENGTH: usize = 3;
pub const FIELD_MAX_LENGTH: usize = 100;

/// The message for a field whose length is out of bounds:
/// `"{field} must be between 3-100 {unit}."`.
pub open spec fn bounds_text(field: Seq<char>, unit: Seq<char>) -> Seq<char> {
    field + " must be between "@ + decimal(FIELD_MIN_LENGTH as nat) + "-"@ + decimal(
        FIELD_MAX_LENGTH as nat,
    ) + " "@ + unit + "."@
}

fn bounds_string(field: &str, unit: &str) -> (s: String)
    ensures
        s@ == bounds_text(field@, unit@),
{
    let s = String::from_str(field);
    let s = concat(s, " must be between ");
    let s = concat(s, decimal_string(FIELD_MIN_LENGTH).as_str());
    let s = concat(s, "-");
    let s = concat(s, decimal_string(FIELD_MAX_LENGTH).as_str());
    let s = concat(s, " ");
    let s = concat(s, unit);
    concat(s, ".")
}

/// Whether a trimmed field has an acceptable length.
pub open spec fn field_ok(t: Seq<char>) -> bool {
    FIELD_MIN_LENGTH <= t.len() <= FIELD_MAX_LENGTH
}

/// The message of the first field refused, in the order postal code, city,
/// neighborhood, street; the floor level is not checked.
pub open spec fn order_form_check(
    postal_code: Seq<char>,
    city: Seq<char>,
    neighborhood: Option<Seq<char>>,
    street: Seq<char>,
) -> Option<Seq<char>> {
    if !field_ok(trimmed(postal_code)) {
        Some(bounds_text("Postal code"@, "characters"@))
    } else if !field_ok(trimmed(city)) {
        Some(bounds_text("City"@, "characters"@))
    } else if neighborhood is Some && !field_ok(trimmed(neighborhood->Some_0)) {
        Some(bounds_text("Neighborhood"@, "character"@))
    } else if !field_ok(trimmed(street)) {
        Some(bounds_text("Street"@, "characters"@))
    } else {
        None
    }
}

/// The JSON request to place an order.
#[derive(Debug)]
pub struct OrderRequest {
    pub postal_code: String,
    pub city: String,
    pub neighborhood: Option<String>,
    pub street: String,
    pub floor_level: Option<i16>,
}

/// The order form as filled in.
#[derive(Debug)]
pub struct Order {
    pub postal_code: String,
    pub city: String,
    pub neighborhood: Option<String>,
    pub street: String,
    pub floor_level: Option<i16>,
}

impl OrderRequest {
    /// The request to send, with every text field trimmed, or the message
    /// of the first field refused.
    pub fn parse(
        postal_code: String,
        city: String,
        neighborhood: Option<String>,
        street: String,
        floor_level: Option<i16>,
    ) -> (r: Result<Self, String>)
        ensures
            match order_form_check(
                postal_code@,
                city@,
                crate::domain::order::option_view(neighborhood),
                street@,
            ) {
                Some(m) => r matches Err(s) && s@ == m,
                None => {
                    &&& r matches Ok(q)
                    &&& q.postal_code@ == trimmed(postal_code@)
                    &&& q.city@ == trimmed(city@)
                    &&& crate::domain::order::option_view(q.neighborhood) == match neighborhood {
                        Some(n) => Some(trimmed(n@)),
                        None => None,
                    }
                    &&& q.street@ == trimmed(street@)
                    &&& q.floor_level == floor_level
                },
            },
    {
        let (postal_code, postal_count) = trim_and_count(postal_code.as_str());
        let (city, city_count) = trim_and_count(city.as_str());
        let (neighborhood, neighborhood_count) = match neighborhood {
            Some(n) => {
                let (t, c) = trim_and_count(n.as_str());
                (Some(t), Some(c))
            },
            None => (None, None),
        };
        let (street, street_count) = trim_and_count(street.as_str());
        if postal_count < FIELD_MIN_LENGTH || postal_count > FIELD_MAX_LENGTH {
            return Err(bounds_string("Postal code", "characters"));
        }
        if city_count < FIELD_MIN_LENGTH || city_count > FIELD_MAX_LENGTH {
            return Err(bounds_string("City", "characters"));
        }
        if let Some(count) = neighborhood_count {
            if count < FIELD_MIN_LENGTH || count > FIELD_MAX_LENGTH {
                return Err(bounds_string("Neighborhood", "character"));
            }
        }
        if street_count < FIELD_MIN_LENGTH || street_count > FIELD_MAX_LENGTH {
            return Err(bounds_string("Street", "characters"));
        }
        Ok(Self { postal_code, city, neighborhood, street, floor_level })
    }

    /// The request for a filled-in form (`TryFrom<Order>`).
    pub fn try_from(order: Order) -> (r: Result<Self, String>)
        ensures
            match order_form_check(
                order.postal_code@,
                order.city@,
                crate::domain::order::option_view(order.neighborhood),
                order.street@,
            ) {
                Some(m) => r matches Err(s) && s@ == m,
                None => r is Ok,
            },
    {
        Self::parse(order.postal_code, order.city, order.neighborhood, order.street, order.floor_level)
    }
}

/// What the order form shows after submitting.
#[derive(Debug, Clone, Copy, PartialEq, Eq, Structural)]
pub enum PlaceOrderOutcome {
    /// The order was placed.
    Complete,
    /// The server answered something else.
    ServerError,
    /// The session could not be kept: the client logs out.
    SessionLost,
}

impl PlaceOrderOutcome {
    /// From the final status of the authenticated request, or `None` when it
    /// failed.
    pub fn from_status(status: Option<u16>) -> (r: Self)
        ensures
            r == match status {
                Some(201) => PlaceOrderOutcome::Complete,
                Some(_) => PlaceOrderOutcome::ServerError,
                None => PlaceOrderOutcome::SessionLost,
            },
    {
        match status {
            Some(201) => PlaceOrderOutcome::Complete,
            Some(_) => PlaceOrderOutcome::ServerError,
            None => PlaceOrderOutcome::SessionLost,
        }
    }

    /// The error message the form shows for this outcome, if any.
    pub open spec fn spec_error_message(self) -> Option<Seq<char>> {
        match self {
            PlaceOrderOutcome::ServerError => Some("A server error occurred. Please try again."@),
            _ => None,
        }
    }

    /// The error message the form shows for this outcome, if any.
    pub fn error_message(&self) -> (m: Option<String>)
        ensures
            match (m, self.spec_error_message()) {
                (Some(a), Some(b)) => a@ == b,
                (None, None) => true,
                _ => false,
            },
    {
        match self {
            PlaceOrderOutcome::ServerError => Some(
                String::from_str("A server error occurred. Please try again."),
            ),
            _ => None,
        }
    }
}

/// An order form the client accepts, the server accepts too, with the same
/// trimmed fields, provided its postal code has at most 12 characters (the
/// form allows up to 100, the server 12) and its floor level, when given, is
/// not below zero (the form does not check it).
pub proof fn order_form_agrees_with_server(
    postal_code: Seq<char>,
    city: Seq<char>,
    neighborhood: Option<Seq<char>>,
    street: Seq<char>,
    floor_level: Option<i16>,
)
    requires
        order_form_check(postal_code, city, neighborhood, street) is None,
        trimmed(postal_code).len() <= POSTAL_CODE_MAX_LENGTH,
        floor_level matches Some(l) ==> l >= 0,
    ensures
        address_errors(postal_code, city, neighborhood, street, floor_level).len() == 0,
{
}

/// What the server refuses in an address, the client's form refuses too,
/// except for a postal code of 13 to 100 characters and a negative floor
/// level.
pub proof fn order_form_refuses_what_server_refuses(
    postal_code: Seq<char>,
    city: Seq<char>,
    neighborhood: Option<Seq<char>>,
    street: Seq<char>,
)
    requires
        address_errors(postal_code, city, neighborhood, street, None).len() != 0,
        trimmed(postal_code).len() <= POSTAL_CODE_MAX_LENGTH,
    ensures
        order_form_check(postal_code, city, neighborhood, street) is Some,
{
}

/// The form accepts every address the server accepts: it never refuses a
/// field the server takes (the server's postal codes, of at most 12
/// characters, lie within the form's bounds).
pub proof fn order_form_accepts_what_server_accepts(
    postal_code: Seq<char>,
    city: Seq<char>,
    neighborhood: Option<Seq<char>>,
    street: Seq<char>,
    floor_level: Option<i16>,
)
    requires
        address_errors(postal_code, city, neighborhood, street, floor_level).len() == 0,
    ensures
        order_form_check(postal_code, city, neighborhood, street) is None,
{
}

/// The form refuses a filled-in order exactly when one of its trimmed text
/// fields (the neighborhood only when given) has fewer than 3 or more than
/// 100 characters.
pub proof fn order_form_bounds(
    postal_code: Seq<char>,
    city: Seq<char>,
    neighborhood: Option<Seq<char>>,
    street: Seq<char>,
)
    ensures
        order_form_check(postal_code, city, neighborhood, street) is None <==> {
            &&& 3 <= trimmed(postal_code).len() <= 100
            &&& 3 <= trimmed(city).len() <= 100
            &&& (neighborhood matches Some(n) ==> 3 <= trimmed(n).len() <= 100)
            &&& 3 <= trimmed(street).len() <= 100
        },
{
}

} // verus!

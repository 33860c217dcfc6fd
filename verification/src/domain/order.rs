//! Orders of smart windows and the addresses they are delivered to.
use crate::clock::Timestamp;
use crate::domain::user::error_of;
use crate::ids::Uuid;
use crate::text::{bounds_message, bounds_string, trim_and_count, trimmed};
use vstd::prelude::*;

verus! {

/// Possible errors from order validation.
#[derive(Debug, Clone, Copy, PartialEq, Eq, Structural)]
pub enum OrderValidationError {
    InvalidPostalCodeNameLength { min: usize, max: usize, actual: usize },
    InvalidCityNameLength { min: usize, max: usize, actual: usize },
    InvalidNeighborhoodNameLength { min: usize, max: usize, actual: usize },
    InvalidStreetNameLength { min: usize, max: usize, actual: usize },
    InvalidFloorLevel,
    InvalidDeliveryDate,
}

/// Order related errors.
#[derive(Debug)]
pub enum OrderError {
    InvalidOrder(Vec<OrderValidationError>),
    InvalidOrderRequest(Vec<OrderValidationError>),
    InvalidToken,
    Unknown(anyhow::Error),
}

pub const POSTAL_CODE_MIN_LENGTH: usize = 3;
pub const POSTAL_CODE_MAX_LENGTH: usize = 12;
pub const CITY_MIN_LENGTH: usize = 3;
pub const CITY_MAX_LENGTH: usize = 100;
pub const NEIGHBORHOOD_MIN_LENGTH: usize = 3;
pub const NEIGHBORHOOD_MAX_LENGTH: usize = 100;
pub const STREET_MIN_LENGTH: usize = 3;
pub const STREET_MAX_LENGTH: usize = 100;

/// Whether the length of `t` in characters lies within `min..=max`.
pub open spec fn length_within(t: Seq<char>, min: usize, max: usize) -> bool {
    min <= t.len() <= max
}

/// What parsing `raw` as a postal code gives.
pub open spec fn postal_code_outcome(raw: Seq<char>) -> Result<Seq<char>, OrderValidationError> {
    let t = trimmed(raw);
    if length_within(t, POSTAL_CODE_MIN_LENGTH, POSTAL_CODE_MAX_LENGTH) {
        Ok(t)
    } else {
        Err(
            OrderValidationError::InvalidPostalCodeNameLength {
                min: POSTAL_CODE_MIN_LENGTH,
                max: POSTAL_CODE_MAX_LENGTH,
                actual: t.len() as usize,
            },
        )
    }
}

/// What parsing `raw` as a city name gives.
pub open spec fn city_outcome(raw: Seq<char>) -> Result<Seq<char>, OrderValidationError> {
    let t = trimmed(raw);
    if length_within(t, CITY_MIN_LENGTH, CITY_MAX_LENGTH) {
        Ok(t)
    } else {
        Err(
            OrderValidationError::InvalidCityNameLength {
                min: CITY_MIN_LENGTH,
                max: CITY_MAX_LENGTH,
                actual: t.len() as usize,
            },
        )
    }
}

/// What parsing an optional neighborhood gives: nothing to check when absent.
pub open spec fn neighborhood_outcome(raw: Option<Seq<char>>) -> Result<
    Option<Seq<char>>,
    OrderValidationError,
> {
    match raw {
        None => Ok(None),
        Some(raw) => {
            let t = trimmed(raw);
            if length_within(t, NEIGHBORHOOD_MIN_LENGTH, NEIGHBORHOOD_MAX_LENGTH) {
                Ok(Some(t))
            } else {
                Err(
                    OrderValidationError::InvalidNeighborhoodNameLength {
                        min: NEIGHBORHOOD_MIN_LENGTH,
                        max: NEIGHBORHOOD_MAX_LENGTH,
                        actual: t.len() as usize,
                    },
                )
            }
        },
    }
}

/// What parsing `raw` as a street name gives.
pub open spec fn street_outcome(raw: Seq<char>) -> Result<Seq<char>, OrderValidationError> {
    let t = trimmed(raw);
    if length_within(t, STREET_MIN_LENGTH, STREET_MAX_LENGTH) {
        Ok(t)
    } else {
        Err(
            OrderValidationError::InvalidStreetNameLength {
                min: STREET_MIN_LENGTH,
                max: STREET_MAX_LENGTH,
                actual: t.len() as usize,
            },
        )
    }
}

/// What parsing an optional floor level gives: below zero is refused.
pub open spec fn floor_level_outcome(level: Option<i16>) -> Result<
    Option<i16>,
    OrderValidationError,
> {
    match level {
        None => Ok(None),
        Some(l) => if l < 0 {
            Err(OrderValidationError::InvalidFloorLevel)
        } else {
            Ok(Some(l))
        },
    }
}

/// Valid postal code.
#[derive(Debug)]
pub struct PostalCode {
    pub code: String,
}

impl View for PostalCode {
    type V = Seq<char>;

    open spec fn view(&self) -> Seq<char> {
        self.code@
    }
}

impl PostalCode {
    pub fn parse(code: String) -> (r: Result<Self, OrderValidationError>)
        ensures
            match (r, postal_code_outcome(code@)) {
                (Ok(p), Ok(t)) => p@ == t,
                (Err(e), Err(f)) => e == f,
                _ => false,
            },
    {
        let (code, length) = trim_and_count(code.as_str());
        if length < POSTAL_CODE_MIN_LENGTH || length > POSTAL_CODE_MAX_LENGTH {
            return Err(
                OrderValidationError::InvalidPostalCodeNameLength {
                    min: POSTAL_CODE_MIN_LENGTH,
                    max: POSTAL_CODE_MAX_LENGTH,
                    actual: length,
                },
            );
        }
        Ok(Self { code })
    }

    pub fn as_ref(&self) -> (s: &str)
        ensures
            s@ == self@,
    {
        self.code.as_str()
    }

    /// The code, given back as a `String`.
    pub fn into_string(self) -> (s: String)
        ensures
            s@ == self@,
    {
        self.code
    }
}

/// Valid city.
#[derive(Debug)]
pub struct City {
    name: String,
}

impl View for City {
    type V = Seq<char>;

    closed spec fn view(&self) -> Seq<char> {
        self.name@
    }
}

impl City {
    pub fn parse(name: String) -> (r: Result<Self, OrderValidationError>)
        ensures
            match (r, city_outcome(name@)) {
                (Ok(c), Ok(t)) => c@ == t,
                (Err(e), Err(f)) => e == f,
                _ => false,
            },
    {
        let (name, length) = trim_and_count(name.as_str());
        if length < CITY_MIN_LENGTH || length > CITY_MAX_LENGTH {
            return Err(
                OrderValidationError::InvalidCityNameLength {
                    min: CITY_MIN_LENGTH,
                    max: CITY_MAX_LENGTH,
                    actual: length,
                },
            );
        }
        Ok(Self { name })
    }

    pub fn as_ref(&self) -> (s: &str)
        ensures
            s@ == self@,
    {
        self.name.as_str()
    }

    /// The name, given back as a `String`.
    pub fn into_string(self) -> (s: String)
        ensures
            s@ == self@,
    {
        self.name
    }
}

/// Valid neighborhood.
#[derive(Debug)]
pub struct Neighborhood {
    name: String,
}

impl View for Neighborhood {
    type V = Seq<char>;

    closed spec fn view(&self) -> Seq<char> {
        self.name@
    }
}

impl Neighborhood {
    pub fn parse(neighborhood: Option<String>) -> (r: Result<Option<Self>, OrderValidationError>)
        ensures
            match (r, neighborhood_outcome(option_view(neighborhood))) {
                (Ok(None), Ok(None)) => true,
                (Ok(Some(n)), Ok(Some(t))) => n@ == t,
                (Err(e), Err(f)) => e == f,
                _ => false,
            },
    {
        let name = match neighborhood {
            Some(name) => name,
            None => return Ok(None),
        };
        let (name, length) = trim_and_count(name.as_str());
        if length < NEIGHBORHOOD_MIN_LENGTH || length > NEIGHBORHOOD_MAX_LENGTH {
            return Err(
                OrderValidationError::InvalidNeighborhoodNameLength {
                    min: NEIGHBORHOOD_MIN_LENGTH,
                    max: NEIGHBORHOOD_MAX_LENGTH,
                    actual: length,
                },
            );
        }
        Ok(Some(Self { name }))
    }

    pub fn as_ref(&self) -> (s: &str)
        ensures
            s@ == self@,
    {
        self.name.as_str()
    }

    /// The name, given back as a `String`.
    pub fn into_string(self) -> (s: String)
        ensures
            s@ == self@,
    {
        self.name
    }
}

/// The view of an optional string.
pub open spec fn option_view(s: Option<String>) -> Option<Seq<char>> {
    match s {
        Some(s) => Some(s@),
        None => None,
    }
}

/// Valid street.
#[derive(Debug)]
pub struct Street {
    name: String,
}

impl View for Street {
    type V = Seq<char>;

    closed spec fn view(&self) -> Seq<char> {
        self.name@
    }
}

impl Street {
    pub fn parse(name: String) -> (r: Result<Self, OrderValidationError>)
        ensures
            match (r, street_outcome(name@)) {
                (Ok(s), Ok(t)) => s@ == t,
                (Err(e), Err(f)) => e == f,
                _ => false,
            },
    {
        let (name, length) = trim_and_count(name.as_str());
        if length < STREET_MIN_LENGTH || length > STREET_MAX_LENGTH {
            return Err(
                OrderValidationError::InvalidStreetNameLength {
                    min: STREET_MIN_LENGTH,
                    max: STREET_MAX_LENGTH,
                    actual: length,
                },
            );
        }
        Ok(Self { name })
    }

    pub fn as_ref(&self) -> (s: &str)
        ensures
            s@ == self@,
    {
        self.name.as_str()
    }

    /// The name, given back as a `String`.
    pub fn into_string(self) -> (s: String)
        ensures
            s@ == self@,
    {
        self.name
    }
}

/// Valid floor level.
#[derive(Clone, Copy, Debug, PartialEq, Eq, Structural)]
pub struct FloorLevel {
    level: i16,
}

impl FloorLevel {
    pub closed spec fn spec_level(self) -> i16 {
        self.level
    }

    pub fn parse(level: Option<i16>) -> (r: Result<Option<Self>, OrderValidationError>)
        ensures
            match (r, floor_level_outcome(level)) {
                (Ok(None), Ok(None)) => true,
                (Ok(Some(f)), Ok(Some(l))) => f.spec_level() == l,
                (Err(e), Err(f)) => e == f,
                _ => false,
            },
    {
        let level = match level {
            Some(level) => level,
            None => return Ok(None),
        };
        if level < 0 {
            return Err(OrderValidationError::InvalidFloorLevel);
        }
        Ok(Some(Self { level }))
    }

    /// The level as an `i16` (`From<FloorLevel> for i16`).
    pub fn level(self) -> (l: i16)
        ensures
            l == self.spec_level(),
    {
        self.level
    }
}

/// The view of an optional neighborhood.
pub open spec fn neighborhood_view(n: Option<Neighborhood>) -> Option<Seq<char>> {
    match n {
        Some(n) => Some(n@),
        None => None,
    }
}

/// The level of an optional floor level.
pub open spec fn floor_view(f: Option<FloorLevel>) -> Option<i16> {
    match f {
        Some(f) => Some(f.spec_level()),
        None => None,
    }
}

/// The validation errors of the address fields, in the order postal code,
/// city, neighborhood, street, floor level.
pub open spec fn address_errors(
    postal_code: Seq<char>,
    city: Seq<char>,
    neighborhood: Option<Seq<char>>,
    street: Seq<char>,
    floor_level: Option<i16>,
) -> Seq<OrderValidationError> {
    error_of(postal_code_outcome(postal_code)) + error_of(city_outcome(city)) + error_of(
        neighborhood_outcome(neighborhood),
    ) + error_of(street_outcome(street)) + error_of(floor_level_outcome(floor_level))
}

/// The error of a delivery time that comes before the creation time.
pub open spec fn delivery_errors(created_at: Timestamp, delivered_at: Option<Timestamp>) -> Seq<
    OrderValidationError,
> {
    match delivered_at {
        Some(t) => if t.spec_before(created_at) {
            seq![OrderValidationError::InvalidDeliveryDate]
        } else {
            Seq::empty()
        },
        None => Seq::empty(),
    }
}

/// The address fields hold the trimmed inputs, the floor level as given.
pub open spec fn address_holds(
    postal: &PostalCode,
    city: &City,
    neighborhood: Option<Neighborhood>,
    street: &Street,
    floor: Option<FloorLevel>,
    postal_code_in: Seq<char>,
    city_in: Seq<char>,
    neighborhood_in: Option<Seq<char>>,
    street_in: Seq<char>,
    floor_level_in: Option<i16>,
) -> bool {
    &&& postal@ == trimmed(postal_code_in)
    &&& city@ == trimmed(city_in)
    &&& neighborhood_view(neighborhood) == match neighborhood_in {
        Some(n) => Some(trimmed(n)),
        None => None,
    }
    &&& street@ == trimmed(street_in)
    &&& floor_view(floor) == floor_level_in
}

/// The address fields parsed in order, each error collected.
struct ParsedAddress {
    postal_code: Option<PostalCode>,
    city: Option<City>,
    neighborhood: Option<Option<Neighborhood>>,
    street: Option<Street>,
    floor_level: Option<Option<FloorLevel>>,
}

fn parse_address(
    postal_code: String,
    city: String,
    neighborhood: Option<String>,
    street: String,
    floor_level: Option<i16>,
    errs: &mut Vec<OrderValidationError>,
) -> (p: ParsedAddress)
    ensures
        final(errs)@ == old(errs)@ + address_errors(
            postal_code@,
            city@,
            option_view(neighborhood),
            street@,
            floor_level,
        ),
        address_errors(postal_code@, city@, option_view(neighborhood), street@, floor_level).len()
            == 0 ==> {
            &&& p.postal_code matches Some(pc)
            &&& p.city matches Some(c)
            &&& p.neighborhood matches Some(n)
            &&& p.street matches Some(st)
            &&& p.floor_level matches Some(f)
            &&& address_holds(
                &pc,
                &c,
                n,
                &st,
                f,
                postal_code@,
                city@,
                option_view(neighborhood),
                street@,
                floor_level,
            )
        },
{
    let ghost e0 = errs@;
    let postal_code = match PostalCode::parse(postal_code) {
        Ok(v) => Some(v),
        Err(e) => {
            errs.push(e);
            None
        },
    };
    let city = match City::parse(city) {
        Ok(v) => Some(v),
        Err(e) => {
            errs.push(e);
            None
        },
    };
    let neighborhood = match Neighborhood::parse(neighborhood) {
        Ok(v) => Some(v),
        Err(e) => {
            errs.push(e);
            None
        },
    };
    let street = match Street::parse(street) {
        Ok(v) => Some(v),
        Err(e) => {
            errs.push(e);
            None
        },
    };
    let floor_level = match FloorLevel::parse(floor_level) {
        Ok(v) => Some(v),
        Err(e) => {
            errs.push(e);
            None
        },
    };
    ParsedAddress { postal_code, city, neighborhood, street, floor_level }
}

/// Order entity.
#[derive(Debug)]
pub struct Order {
    pub id: Uuid,
    pub postal_code: PostalCode,
    pub city: City,
    pub neighborhood: Option<Neighborhood>,
    pub street: Street,
    pub floor_level: Option<FloorLevel>,
    pub created_at: Timestamp,
    pub delivered_at: Option<Timestamp>,
    pub user_id: Uuid,
}

impl Order {
    pub fn parse(
        id: Uuid,
        postal_code: String,
        city: String,
        neighborhood: Option<String>,
        street: String,
        floor_level: Option<i16>,
        created_at: Timestamp,
        delivered_at: Option<Timestamp>,
        user_id: Uuid,
    ) -> (r: Result<Self, OrderError>)
        ensures
            ({
                let errs = address_errors(
                    postal_code@,
                    city@,
                    option_view(neighborhood),
                    street@,
                    floor_level,
                ) + delivery_errors(created_at, delivered_at);
                if errs.len() == 0 {
                    &&& r matches Ok(o)
                    &&& o.id == id
                    &&& address_holds(
                        &o.postal_code,
                        &o.city,
                        o.neighborhood,
                        &o.street,
                        o.floor_level,
                        postal_code@,
                        city@,
                        option_view(neighborhood),
                        street@,
                        floor_level,
                    )
                    &&& o.created_at == created_at
                    &&& o.delivered_at == delivered_at
                    &&& o.user_id == user_id
                } else {
                    r matches Err(OrderError::InvalidOrder(v)) && v@ == errs
                }
            }),
    {
        let ghost addr = address_errors(
            postal_code@,
            city@,
            option_view(neighborhood),
            street@,
            floor_level,
        );
        let mut errs: Vec<OrderValidationError> = Vec::new();
        let p = parse_address(postal_code, city, neighborhood, street, floor_level, &mut errs);
        assert(errs@ =~= addr);
        if let Some(t) = delivered_at {
            if t.before(&created_at) {
                errs.push(OrderValidationError::InvalidDeliveryDate);
            }
        }
        assert(errs@ =~= addr + delivery_errors(created_at, delivered_at));
        if errs.len() != 0 {
            return Err(OrderError::InvalidOrder(errs));
        }
        match p {
            ParsedAddress {
                postal_code: Some(postal_code),
                city: Some(city),
                neighborhood: Some(neighborhood),
                street: Some(street),
                floor_level: Some(floor_level),
            } => Ok(
                Self {
                    id,
                    postal_code,
                    city,
                    neighborhood,
                    street,
                    floor_level,
                    created_at,
                    delivered_at,
                    user_id,
                },
            ),
            _ => Err(OrderError::InvalidOrder(errs)),
        }
    }

    pub fn new(
        id: Uuid,
        postal_code: PostalCode,
        city: City,
        neighborhood: Option<Neighborhood>,
        street: Street,
        floor_level: Option<FloorLevel>,
        created_at: Timestamp,
        delivered_at: Option<Timestamp>,
        user_id: Uuid,
    ) -> (o: Self)
        ensures
            o.id == id,
            o.postal_code@ == postal_code@,
            o.city@ == city@,
            neighborhood_view(o.neighborhood) == neighborhood_view(neighborhood),
            o.street@ == street@,
            o.floor_level == floor_level,
            o.created_at == created_at,
            o.delivered_at == delivered_at,
            o.user_id == user_id,
    {
        Self {
            id,
            postal_code,
            city,
            neighborhood,
            street,
            floor_level,
            created_at,
            delivered_at,
            user_id,
        }
    }
}

/// A stored order as the database hands it back, before validation.
#[derive(Debug)]
pub struct OrderRow {
    pub id: Uuid,
    pub postal_code: String,
    pub city: String,
    pub neighborhood: Option<String>,
    pub street: String,
    pub floor_level: Option<i16>,
    pub created_at: Timestamp,
    pub delivered_at: Option<Timestamp>,
}

/// The validation errors of a stored order, as `Order::parse` collects them.
pub open spec fn order_row_errors(row: &OrderRow) -> Seq<OrderValidationError> {
    address_errors(
        row.postal_code@,
        row.city@,
        option_view(row.neighborhood),
        row.street@,
        row.floor_level,
    ) + delivery_errors(row.created_at, row.delivered_at)
}

/// `o` is the order of `user_id` that `row` describes.
pub open spec fn order_from_row(o: &Order, row: &OrderRow, user_id: Uuid) -> bool {
    &&& o.id == row.id
    &&& address_holds(
        &o.postal_code,
        &o.city,
        o.neighborhood,
        &o.street,
        o.floor_level,
        row.postal_code@,
        row.city@,
        option_view(row.neighborhood),
        row.street@,
        row.floor_level,
    )
    &&& o.created_at == row.created_at
    &&& o.delivered_at == row.delivered_at
    &&& o.user_id == user_id
}

/// A copy of an optional string.
fn clone_option_string(s: &Option<String>) -> (r: Option<String>)
    ensures
        option_view(r) == option_view(*s),
{
    match s {
        Some(t) => Some(t.clone()),
        None => None,
    }
}

impl Order {
    /// The orders of `user_id` that stored rows describe, in order. The first
    /// row that fails validation is refused with its errors, as parsing it
    /// alone would.
    pub fn parse_rows(rows: &Vec<OrderRow>, user_id: Uuid) -> (r: Result<Vec<Order>, OrderError>)
        ensures
            (forall|i: int| 0 <= i < rows@.len() ==> (#[trigger] order_row_errors(&rows@[i])).len() == 0)
                ==> (r matches Ok(os) && os@.len() == rows@.len() && forall|i: int|
                0 <= i < rows@.len() ==> order_from_row(&#[trigger] os@[i], &rows@[i], user_id)),
            !(forall|i: int| 0 <= i < rows@.len() ==> (#[trigger] order_row_errors(&rows@[i])).len() == 0)
                ==> exists|i: int|
                0 <= i < rows@.len() && (#[trigger] order_row_errors(&rows@[i])).len() != 0 && (forall|j: int|
                    0 <= j < i ==> (#[trigger] order_row_errors(&rows@[j])).len() == 0) && (r matches Err(
                    OrderError::InvalidOrder(v),
                ) && v@ == order_row_errors(&rows@[i])),
    {
        let mut orders: Vec<Order> = Vec::new();
        let mut i: usize = 0;
        while i < rows.len()
            invariant
                i <= rows@.len(),
                orders@.len() == i,
                forall|j: int| 0 <= j < i ==> (#[trigger] order_row_errors(&rows@[j])).len() == 0,
                forall|j: int| 0 <= j < i ==> order_from_row(&#[trigger] orders@[j], &rows@[j], user_id),
            decreases rows@.len() - i,
        {
            let row = &rows[i];
            match Order::parse(
                row.id,
                row.postal_code.clone(),
                row.city.clone(),
                clone_option_string(&row.neighborhood),
                row.street.clone(),
                row.floor_level,
                row.created_at,
                row.delivered_at,
                user_id,
            ) {
                Ok(o) => orders.push(o),
                Err(e) => {
                    assert(order_row_errors(&rows@[i as int]).len() != 0);
                    return Err(e);
                },
            }
            i = i + 1;
        }
        Ok(orders)
    }
}

/// Request to place new order.
#[derive(Debug)]
pub struct OrderRequest {
    pub postal_code: PostalCode,
    pub city: City,
    pub neighborhood: Option<Neighborhood>,
    pub street: Street,
    pub floor_level: Option<FloorLevel>,
}

impl OrderRequest {
    pub fn parse(
        postal_code: String,
        city: String,
        neighborhood: Option<String>,
        street: String,
        floor_level: Option<i16>,
    ) -> (r: Result<Self, OrderError>)
        ensures
            ({
                let errs = address_errors(
                    postal_code@,
                    city@,
                    option_view(neighborhood),
                    street@,
                    floor_level,
                );
                if errs.len() == 0 {
                    &&& r matches Ok(q)
                    &&& address_holds(
                        &q.postal_code,
                        &q.city,
                        q.neighborhood,
                        &q.street,
                        q.floor_level,
                        postal_code@,
                        city@,
                        option_view(neighborhood),
                        street@,
                        floor_level,
                    )
                } else {
                    r matches Err(OrderError::InvalidOrder(v)) && v@ == errs
                }
            }),
    {
        let mut errs: Vec<OrderValidationError> = Vec::new();
        let p = parse_address(postal_code, city, neighborhood, street, floor_level, &mut errs);
        assert(errs@ =~= address_errors(
            postal_code@,
            city@,
            option_view(neighborhood),
            street@,
            floor_level,
        ));
        if errs.len() != 0 {
            return Err(OrderError::InvalidOrder(errs));
        }
        match p {
            ParsedAddress {
                postal_code: Some(postal_code),
                city: Some(city),
                neighborhood: Some(neighborhood),
                street: Some(street),
                floor_level: Some(floor_level),
            } => Ok(Self { postal_code, city, neighborhood, street, floor_level }),
            _ => Err(OrderError::InvalidOrder(errs)),
        }
    }
}

impl OrderValidationError {
    /// The text the error is written as.
    pub open spec fn spec_message(self) -> Seq<char> {
        match self {
            OrderValidationError::InvalidPostalCodeNameLength { min, max, actual } =>
                bounds_message("Invalid postal code length: "@, min as nat, max as nat, actual as nat),
            OrderValidationError::InvalidCityNameLength { min, max, actual } => bounds_message(
                "Invalid city length: "@,
                min as nat,
                max as nat,
                actual as nat,
            ),
            OrderValidationError::InvalidNeighborhoodNameLength { min, max, actual } =>
                bounds_message("Invalid neighborhood length: "@, min as nat, max as nat, actual as nat),
            OrderValidationError::InvalidStreetNameLength { min, max, actual } => bounds_message(
                "Invalid street length: "@,
                min as nat,
                max as nat,
                actual as nat,
            ),
            OrderValidationError::InvalidFloorLevel => "Floor level cannot be less than 0"@,
            OrderValidationError::InvalidDeliveryDate =>
                "Order delivered time cannot be before creation time"@,
        }
    }

    /// The text the error is written as (its `Display`).
    pub fn message(&self) -> (s: String)
        ensures
            s@ == self.spec_message(),
    {
        match self {
            OrderValidationError::InvalidPostalCodeNameLength { min, max, actual } =>
                bounds_string("Invalid postal code length: ", *min, *max, *actual),
            OrderValidationError::InvalidCityNameLength { min, max, actual } => bounds_string(
                "Invalid city length: ",
                *min,
                *max,
                *actual,
            ),
            OrderValidationError::InvalidNeighborhoodNameLength { min, max, actual } =>
                bounds_string("Invalid neighborhood length: ", *min, *max, *actual),
            OrderValidationError::InvalidStreetNameLength { min, max, actual } => bounds_string(
                "Invalid street length: ",
                *min,
                *max,
                *actual,
            ),
            OrderValidationError::InvalidFloorLevel => String::from_str(
                "Floor level cannot be less than 0",
            ),
            OrderValidationError::InvalidDeliveryDate => String::from_str(
                "Order delivered time cannot be before creation time",
            ),
        }
    }
}

/// An accepted address field is accepted again, unchanged, when parsed a
/// second time, and its length lies within its bounds.
pub proof fn address_parse_is_stable(
    postal_code: Seq<char>,
    city: Seq<char>,
    neighborhood: Seq<char>,
    street: Seq<char>,
)
    ensures
        postal_code_outcome(postal_code) matches Ok(t) ==> postal_code_outcome(t) == Ok::<
            Seq<char>,
            OrderValidationError,
        >(t) && POSTAL_CODE_MIN_LENGTH <= t.len() <= POSTAL_CODE_MAX_LENGTH,
        city_outcome(city) matches Ok(t) ==> city_outcome(t) == Ok::<
            Seq<char>,
            OrderValidationError,
        >(t) && CITY_MIN_LENGTH <= t.len() <= CITY_MAX_LENGTH,
        neighborhood_outcome(Some(neighborhood)) matches Ok(Some(t)) ==> neighborhood_outcome(
            Some(t),
        ) == Ok::<Option<Seq<char>>, OrderValidationError>(Some(t)) && NEIGHBORHOOD_MIN_LENGTH
            <= t.len() <= NEIGHBORHOOD_MAX_LENGTH,
        street_outcome(street) matches Ok(t) ==> street_outcome(t) == Ok::<
            Seq<char>,
            OrderValidationError,
        >(t) && STREET_MIN_LENGTH <= t.len() <= STREET_MAX_LENGTH,
{
    crate::text::lemma_trimmed_idempotent(postal_code);
    crate::text::lemma_trimmed_idempotent(city);
    crate::text::lemma_trimmed_idempotent(neighborhood);
    crate::text::lemma_trimmed_idempotent(street);
}

/// An order is valid only if it was not delivered before it was created,
/// and its floor level, when given, is not below zero.
pub proof fn valid_order_is_delivered_after_creation(
    postal_code: Seq<char>,
    city: Seq<char>,
    neighborhood: Option<Seq<char>>,
    street: Seq<char>,
    floor_level: Option<i16>,
    created_at: Timestamp,
    delivered_at: Option<Timestamp>,
)
    ensures
        (address_errors(postal_code, city, neighborhood, street, floor_level) + delivery_errors(
            created_at,
            delivered_at,
        )).len() == 0 ==> {
            &&& (delivered_at matches Some(t) ==> !t.spec_before(created_at))
            &&& (floor_level matches Some(l) ==> l >= 0)
        },
{
}

/// A delivery is refused exactly when it comes before the creation: a
/// delivery at the creation instant or any time after it is accepted, an
/// undelivered order has no delivery error, and a refused delivery gives the
/// one delivery error.
pub proof fn delivery_refused_exactly_before_creation(created_at: Timestamp, delivered_at: Timestamp)
    ensures
        delivery_errors(created_at, Some(delivered_at)).len() == 0 <==> created_at.unix_nanos
            <= delivered_at.unix_nanos,
        delivered_at.unix_nanos < created_at.unix_nanos ==> delivery_errors(
            created_at,
            Some(delivered_at),
        ) == seq![OrderValidationError::InvalidDeliveryDate],
        delivery_errors(created_at, None).len() == 0,
{
}

/// An order whose address fields are valid and that was delivered at or
/// after its creation, or not yet, passes validation with no error.
pub proof fn valid_address_delivered_after_creation_is_accepted(
    postal_code: Seq<char>,
    city: Seq<char>,
    neighborhood: Option<Seq<char>>,
    street: Seq<char>,
    floor_level: Option<i16>,
    created_at: Timestamp,
    delivered_at: Option<Timestamp>,
)
    requires
        address_errors(postal_code, city, neighborhood, street, floor_level).len() == 0,
        delivered_at matches Some(t) ==> created_at.unix_nanos <= t.unix_nanos,
    ensures
        (address_errors(postal_code, city, neighborhood, street, floor_level) + delivery_errors(
            created_at,
            delivered_at,
        )).len() == 0,
{
}

} // verus!

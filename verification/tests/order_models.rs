use smart_window::clock::Timestamp;
use smart_window::domain::order::{
    City, FloorLevel, Neighborhood, Order, OrderError, OrderRequest, OrderRow, OrderValidationError,
    PostalCode, Street,
};
use smart_window::ids::Uuid;

fn s(x: &str) -> String {
    x.to_string()
}

#[test]
fn order_parse_accepts_valid_order() {
    let o = Order::parse(
        Uuid { value: 1 },
        s("10000"),
        s(" Sofia "),
        None,
        s("Example Street"),
        None,
        Timestamp { unix_nanos: 100 },
        None,
        Uuid { value: 2 },
    )
    .unwrap();
    assert_eq!(o.postal_code.as_ref(), "10000");
    assert_eq!(o.city.as_ref(), "Sofia");
    assert!(o.neighborhood.is_none());
    assert_eq!(o.street.as_ref(), "Example Street");
    assert!(o.floor_level.is_none());
    assert_eq!(o.created_at, Timestamp { unix_nanos: 100 });
    assert_eq!(o.user_id, Uuid { value: 2 });
}

#[test]
fn order_parse_collects_every_error_in_field_order() {
    let r = Order::parse(
        Uuid { value: 1 },
        s("1"),
        s("So"),
        Some(s(" x ")),
        s(""),
        Some(-1),
        Timestamp { unix_nanos: 100 },
        Some(Timestamp { unix_nanos: 99 }),
        Uuid { value: 2 },
    );
    match r {
        Err(OrderError::InvalidOrder(errs)) => assert_eq!(
            errs,
            vec![
                OrderValidationError::InvalidPostalCodeNameLength { min: 3, max: 12, actual: 1 },
                OrderValidationError::InvalidCityNameLength { min: 3, max: 100, actual: 2 },
                OrderValidationError::InvalidNeighborhoodNameLength { min: 3, max: 100, actual: 1 },
                OrderValidationError::InvalidStreetNameLength { min: 3, max: 100, actual: 0 },
                OrderValidationError::InvalidFloorLevel,
                OrderValidationError::InvalidDeliveryDate,
            ]
        ),
        other => panic!("unexpected {:?}", other),
    }
}

#[test]
fn delivery_at_creation_time_is_valid() {
    let o = Order::parse(
        Uuid { value: 1 },
        s("10000"),
        s("Sofia"),
        Some(s("Lozenets")),
        s("Example Street"),
        Some(0),
        Timestamp { unix_nanos: 100 },
        Some(Timestamp { unix_nanos: 100 }),
        Uuid { value: 2 },
    )
    .unwrap();
    assert_eq!(o.neighborhood.unwrap().as_ref(), "Lozenets");
    assert_eq!(o.floor_level.unwrap().level(), 0);
}

#[test]
fn order_request_uses_invalid_order() {
    match OrderRequest::parse(s("1234567890123"), s("Sofia"), None, s("Street"), Some(3)) {
        Err(OrderError::InvalidOrder(errs)) => assert_eq!(
            errs,
            vec![OrderValidationError::InvalidPostalCodeNameLength { min: 3, max: 12, actual: 13 }]
        ),
        other => panic!("unexpected {:?}", other),
    }
    let q = OrderRequest::parse(s("123456789012"), s("Sofia"), Some(s(" Center ")), s("Street"), Some(3))
        .unwrap();
    assert_eq!(q.postal_code.as_ref(), "123456789012");
    assert_eq!(q.neighborhood.unwrap().as_ref(), "Center");
    assert_eq!(q.floor_level.unwrap().level(), 3);
}

#[test]
fn field_parsers() {
    assert_eq!(PostalCode::parse(s(" 1000 ")).unwrap().into_string(), "1000");
    assert_eq!(City::parse(s("Sofia")).unwrap().into_string(), "Sofia");
    assert_eq!(Street::parse(s("Main")).unwrap().into_string(), "Main");
    assert!(Neighborhood::parse(None).unwrap().is_none());
    assert_eq!(Neighborhood::parse(Some(s("Lozenets"))).unwrap().unwrap().into_string(), "Lozenets");
    assert!(FloorLevel::parse(None).unwrap().is_none());
    assert_eq!(FloorLevel::parse(Some(-3)).unwrap_err(), OrderValidationError::InvalidFloorLevel);
    assert_eq!(
        City::parse("c".repeat(101)).unwrap_err(),
        OrderValidationError::InvalidCityNameLength { min: 3, max: 100, actual: 101 }
    );
}

#[test]
fn order_validation_messages() {
    assert_eq!(
        OrderValidationError::InvalidPostalCodeNameLength { min: 3, max: 12, actual: 1 }.message(),
        "Invalid postal code length: (min: 3, max: 12, actual: 1)"
    );
    assert_eq!(
        OrderValidationError::InvalidCityNameLength { min: 3, max: 100, actual: 2 }.message(),
        "Invalid city length: (min: 3, max: 100, actual: 2)"
    );
    assert_eq!(
        OrderValidationError::InvalidNeighborhoodNameLength { min: 3, max: 100, actual: 0 }.message(),
        "Invalid neighborhood length: (min: 3, max: 100, actual: 0)"
    );
    assert_eq!(
        OrderValidationError::InvalidStreetNameLength { min: 3, max: 100, actual: 101 }.message(),
        "Invalid street length: (min: 3, max: 100, actual: 101)"
    );
    assert_eq!(OrderValidationError::InvalidFloorLevel.message(), "Floor level cannot be less than 0");
    assert_eq!(
        OrderValidationError::InvalidDeliveryDate.message(),
        "Order delivered time cannot be before creation time"
    );
}

fn row(id: u128, postal_code: &str, floor_level: Option<i16>) -> OrderRow {
    OrderRow {
        id: Uuid { value: id },
        postal_code: s(postal_code),
        city: s(" Recife "),
        neighborhood: Some(s("Boa Viagem")),
        street: s("Rua A"),
        floor_level,
        created_at: Timestamp { unix_nanos: 10 },
        delivered_at: None,
    }
}

#[test]
fn stored_orders_parse_in_order() {
    let rows = vec![row(1, "50000-000", Some(3)), row(2, " 51000 ", None)];
    let orders = Order::parse_rows(&rows, Uuid { value: 9 }).unwrap();
    assert_eq!(orders.len(), 2);
    assert_eq!(orders[0].id, Uuid { value: 1 });
    assert_eq!(orders[0].city.as_ref(), "Recife");
    assert_eq!(orders[0].floor_level.map(|f| f.level()), Some(3));
    assert_eq!(orders[1].id, Uuid { value: 2 });
    assert_eq!(orders[1].postal_code.as_ref(), "51000");
    assert_eq!(orders[1].user_id, Uuid { value: 9 });
    assert!(Order::parse_rows(&Vec::new(), Uuid { value: 9 }).unwrap().is_empty());
}

#[test]
fn stored_orders_refused_at_first_invalid_row() {
    let rows = vec![row(1, "50000-000", None), row(2, "5", Some(-1)), row(3, "", None)];
    match Order::parse_rows(&rows, Uuid { value: 9 }) {
        Err(OrderError::InvalidOrder(errs)) => assert_eq!(
            errs,
            vec![
                OrderValidationError::InvalidPostalCodeNameLength { min: 3, max: 12, actual: 1 },
                OrderValidationError::InvalidFloorLevel,
            ]
        ),
        other => panic!("unexpected {:?}", other.map(|o| o.len())),
    }
}

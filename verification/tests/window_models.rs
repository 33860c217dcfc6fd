use smart_window::clock::TimeOfDay;
use smart_window::domain::window::{
    PreferredWindowTemp, Window, WindowError, WindowRow, WindowValidationError,
};
use smart_window::ids::Uuid;

fn t(h: u8, m: u8) -> TimeOfDay {
    TimeOfDay { hour: h, minute: m, second: 0, nanosecond: 0 }
}

#[test]
fn preferred_temperature_bounds() {
    assert_eq!(PreferredWindowTemp::parse(-5).unwrap().temp(), -5);
    assert_eq!(PreferredWindowTemp::parse(30).unwrap().temp(), 30);
    assert_eq!(
        PreferredWindowTemp::parse(31).unwrap_err(),
        WindowValidationError::InvalidPreferredTemperature { min: -5, max: 30, actual: 31 }
    );
    assert_eq!(
        PreferredWindowTemp::parse(-6).unwrap_err(),
        WindowValidationError::InvalidPreferredTemperature { min: -5, max: 30, actual: -6 }
    );
}

#[test]
fn window_parse() {
    let w = Window::parse(Uuid { value: 9 }, 21, t(7, 30), t(22, 5)).unwrap();
    assert_eq!(w.id, Uuid { value: 9 });
    assert_eq!(w.preferred_temperature.temp(), 21);
    assert_eq!(w.preferred_wake_up_time, t(7, 30));
    assert_eq!(w.preferred_bedtime, t(22, 5));
    match Window::parse(Uuid { value: 9 }, 40, t(7, 30), t(22, 5)) {
        Err(WindowError::InvalidWindow(errs)) => assert_eq!(
            errs,
            vec![WindowValidationError::InvalidPreferredTemperature { min: -5, max: 30, actual: 40 }]
        ),
        other => panic!("unexpected {:?}", other),
    }
}

#[test]
fn window_validation_message_writes_signed_numbers() {
    assert_eq!(
        WindowValidationError::InvalidPreferredTemperature { min: -10, max: -10, actual: -10 }.message(),
        "Invalid window preferred temperature: (min: -10, max: -10, actual: -10)"
    );
    assert_eq!(
        WindowValidationError::InvalidPreferredTemperature { min: i16::MIN, max: 0, actual: 32767 }
            .message(),
        "Invalid window preferred temperature: (min: -32768, max: 0, actual: 32767)"
    );
}

fn window_row(id: u128, temp: i16) -> WindowRow {
    WindowRow {
        id: Uuid { value: id },
        preferred_temperature: temp,
        preferred_wake_up_time: t(7, 0),
        preferred_bedtime: t(22, 30),
    }
}

#[test]
fn stored_windows_parse_in_order() {
    let ws = Window::parse_rows(&vec![window_row(1, 21), window_row(2, -5)]).unwrap();
    assert_eq!(ws.len(), 2);
    assert_eq!((ws[0].id, ws[0].preferred_temperature.temp()), (Uuid { value: 1 }, 21));
    assert_eq!((ws[1].id, ws[1].preferred_temperature.temp()), (Uuid { value: 2 }, -5));
    assert_eq!((ws[1].preferred_wake_up_time, ws[1].preferred_bedtime), (t(7, 0), t(22, 30)));
    assert!(Window::parse_rows(&Vec::new()).unwrap().is_empty());
}

#[test]
fn stored_windows_refused_at_first_invalid_row() {
    match Window::parse_rows(&vec![window_row(1, 20), window_row(2, 31), window_row(3, -6)]) {
        Err(WindowError::InvalidWindow(errs)) => assert_eq!(
            errs,
            vec![WindowValidationError::InvalidPreferredTemperature { min: -5, max: 30, actual: 31 }]
        ),
        other => panic!("unexpected {:?}", other.map(|w| w.len())),
    }
}

//! The dashboard of the user's windows.
use crate::clock::TimeOfDay;
use crate::ids::{uuid_text, uuid_to_string, Uuid};
use crate::text::{concat, decimal, decimal_string, i16_string, signed_decimal};
use vstd::prelude::*;

verus! {

/// The session token after an authenticated request: the refreshed token
/// when one was issued, the current one when none was, and none when the
/// request failed.
pub fn token_after_request(current: Option<String>, result: Result<Option<String>, ()>) -> (r:
    Option<String>)
    ensures
        r == match result {
            Ok(Some(t)) => Some(t),
            Ok(None) => current,
            Err(()) => None::<String>,
        },
{
    match result {
        Ok(Some(t)) => Some(t),
        Ok(None) => current,
        Err(()) => None,
    }
}

/// What the dashboard shows once the windows were asked for.
#[derive(Debug, Clone, Copy, PartialEq, Eq, Structural)]
pub enum DashboardOutcome {
    /// The windows were read.
    Windows,
    /// The body could not be read.
    BadBody,
    /// The server answered something else.
    ServerError,
    /// The session could not be kept: the client logs out.
    SessionLost,
}

impl DashboardOutcome {
    /// From the final status of the authenticated request (`None` when it
    /// failed) and, for a success, whether its body could be read.
    pub fn from_status(status: Option<u16>, body_read: bool) -> (r: Self)
        ensures
            r == match status {
                Some(200) => if body_read {
                    DashboardOutcome::Windows
                } else {
                    DashboardOutcome::BadBody
                },
                Some(_) => DashboardOutcome::ServerError,
                None => DashboardOutcome::SessionLost,
            },
    {
        match status {
            Some(200) => if body_read {
                DashboardOutcome::Windows
            } else {
                DashboardOutcome::BadBody
            },
            Some(_) => DashboardOutcome::ServerError,
            None => DashboardOutcome::SessionLost,
        }
    }

    pub open spec fn spec_error_message(self) -> Option<Seq<char>> {
        match self {
            DashboardOutcome::BadBody => Some("Unexpected response from server."@),
            DashboardOutcome::ServerError => Some("A server error occurred. Please try again."@),
            _ => None,
        }
    }

    /// The error message the dashboard shows for this outcome, if any.
    pub fn error_message(&self) -> (m: Option<String>)
        ensures
            match (m, self.spec_error_message()) {
                (Some(a), Some(b)) => a@ == b,
                (None, None) => true,
                _ => false,
            },
    {
        match self {
            DashboardOutcome::BadBody => Some(String::from_str("Unexpected response from server.")),
            DashboardOutcome::ServerError => Some(
                String::from_str("A server error occurred. Please try again."),
            ),
            _ => None,
        }
    }
}

/// A number written with at least two digits (`{:02}`).
pub open spec fn two_digits(n: nat) -> Seq<char> {
    if n < 10 {
        seq!['0'] + decimal(n)
    } else {
        decimal(n)
    }
}

fn two_digits_string(n: u8) -> (s: String)
    ensures
        s@ == two_digits(n as nat),
{
    if n < 10 {
        let s = String::from_str("0");
        let s = concat(s, decimal_string(n as usize).as_str());
        proof {
            reveal_strlit("0");
        }
        s
    } else {
        decimal_string(n as usize)
    }
}

/// `"{label}: {hh}:{mm}"`.
pub open spec fn clock_text(label: Seq<char>, t: TimeOfDay) -> Seq<char> {
    label + ": "@ + two_digits(t.hour as nat) + ":"@ + two_digits(t.minute as nat)
}

fn clock_string(label: &str, t: TimeOfDay) -> (s: String)
    ensures
        s@ == clock_text(label@, t),
{
    let s = String::from_str(label);
    let s = concat(s, ": ");
    let s = concat(s, two_digits_string(t.hour).as_str());
    let s = concat(s, ":");
    concat(s, two_digits_string(t.minute).as_str())
}

/// The texts of a window's card: header, temperature, wake-up and bedtime.
pub struct WindowCard {
    pub header: String,
    pub temperature: String,
    pub wake: String,
    pub bed: String,
}

/// The card a window is shown as: its header names the first eight
/// characters of its id.
pub fn window_card(id: Uuid, temperature: i16, wake: TimeOfDay, bed: TimeOfDay) -> (c: WindowCard)
    ensures
        c.header@ == "Window: "@ + uuid_text(id.value).subrange(0, 8),
        c.temperature@ == "Temp: "@ + signed_decimal(temperature as int) + "°C"@,
        c.wake@ == clock_text("Wake"@, wake),
        c.bed@ == clock_text("Bed"@, bed),
{
    let text = uuid_to_string(id);
    let short = text.as_str().substring_char(0, 8);
    let header = concat(String::from_str("Window: "), short);
    let temp = concat(String::from_str("Temp: "), i16_string(temperature).as_str());
    let temp = concat(temp, "°C");
    WindowCard {
        header,
        temperature: temp,
        wake: clock_string("Wake", wake),
        bed: clock_string("Bed", bed),
    }
}

} // verus!

//! Installed smart windows and the preferences they run by.
use crate::clock::TimeOfDay;
use crate::ids::Uuid;
use crate::text::{concat, i16_string, signed_decimal};
use vstd::prelude::*;

verus! {

/// Possible errors from window validation
#[derive(Debug, Clone, Copy, PartialEq, Eq, Structural)]
pub enum WindowValidationError {
    InvalidPreferredTemperature { min: i16, max: i16, actual: i16 },
}

/// Window related errors.
#[derive(Debug)]
pub enum WindowError {
    InvalidWindow(Vec<WindowValidationError>),
    InvalidToken,
    Unknown(anyhow::Error),
}

pub const PREFERRED_TEMP_MIN: i16 = -5;
pub const PREFERRED_TEMP_MAX: i16 = 30;

/// What parsing a preferred temperature gives. The error names the bounds
/// and the refused temperature.
pub open spec fn preferred_temp_outcome(temp: i16) -> Result<i16, WindowValidationError> {
    if temp < PREFERRED_TEMP_MIN || temp > PREFERRED_TEMP_MAX {
        Err(WindowValidationError::InvalidPreferredTemperature {
            min: PREFERRED_TEMP_MIN,
            max: PREFERRED_TEMP_MAX,
            actual: temp,
        })
    } else {
        Ok(temp)
    }
}

/// Valid preferred temperature.
#[derive(Debug, Copy, Clone, PartialEq, Eq, Structural)]
pub struct PreferredWindowTemp {
    temp: i16,
}

impl PreferredWindowTemp {
    pub closed spec fn spec_temp(self) -> i16 {
        self.temp
    }

    pub fn parse(temp: i16) -> (r: Result<Self, WindowValidationError>)
        ensures
            match (r, preferred_temp_outcome(temp)) {
                (Ok(p), Ok(t)) => p.spec_temp() == t,
                (Err(e), Err(f)) => e == f,
                _ => false,
            },
    {
        if temp < PREFERRED_TEMP_MIN || temp > PREFERRED_TEMP_MAX {
            Err(
                WindowValidationError::InvalidPreferredTemperature {
                    min: PREFERRED_TEMP_MIN,
                    max: PREFERRED_TEMP_MAX,
                    actual: temp,
                },
            )
        } else {
            Ok(PreferredWindowTemp { temp })
        }
    }

    /// The temperature as an `i16` (`From<PreferredWindowTemp> for i16`).
    pub fn temp(self) -> (t: i16)
        ensures
            t == self.spec_temp(),
    {
        self.temp
    }
}

/// Window entity.
#[derive(Debug, Clone, Copy)]
pub struct Window {
    pub id: Uuid,
    pub preferred_temperature: PreferredWindowTemp,
    pub preferred_wake_up_time: TimeOfDay,
    pub preferred_bedtime: TimeOfDay,
}

impl Window {
    pub fn parse(
        id: Uuid,
        preferred_temperature: i16,
        preferred_wake_up_time: TimeOfDay,
        preferred_bedtime: TimeOfDay,
    ) -> (r: Result<Self, WindowError>)
        ensures
            match preferred_temp_outcome(preferred_temperature) {
                Ok(t) => {
                    &&& r matches Ok(w)
                    &&& w.id == id
                    &&& w.preferred_temperature.spec_temp() == t
                    &&& w.preferred_wake_up_time == preferred_wake_up_time
                    &&& w.preferred_bedtime == preferred_bedtime
                },
                Err(e) => r matches Err(WindowError::InvalidWindow(v)) && v@ == seq![e],
            },
    {
        let parsed_temp = match PreferredWindowTemp::parse(preferred_temperature) {
            Ok(t) => t,
            Err(e) => {
                let mut errs: Vec<WindowValidationError> = Vec::new();
                errs.push(e);
                assert(errs@ =~= seq![e]);
                return Err(WindowError::InvalidWindow(errs));
            },
        };
        Ok(
            Self {
                id,
                preferred_temperature: parsed_temp,
                preferred_wake_up_time,
                preferred_bedtime,
            },
        )
    }
}

/// A stored window as the database hands it back, before validation.
#[derive(Debug, Clone, Copy, PartialEq, Eq, Structural)]
pub struct WindowRow {
    pub id: Uuid,
    pub preferred_temperature: i16,
    pub preferred_wake_up_time: TimeOfDay,
    pub preferred_bedtime: TimeOfDay,
}

/// The stored window passes validation.
pub open spec fn window_row_is_valid(row: WindowRow) -> bool {
    preferred_temp_outcome(row.preferred_temperature) is Ok
}

/// `w` is the window `row` describes.
pub open spec fn window_from_row(w: Window, row: WindowRow) -> bool {
    &&& w.id == row.id
    &&& w.preferred_temperature.spec_temp() == row.preferred_temperature
    &&& w.preferred_wake_up_time == row.preferred_wake_up_time
    &&& w.preferred_bedtime == row.preferred_bedtime
}

impl Window {
    /// The windows that stored rows describe, in order. The first row that
    /// fails validation is refused with its error, as parsing it alone would.
    pub fn parse_rows(rows: &Vec<WindowRow>) -> (r: Result<Vec<Window>, WindowError>)
        ensures
            (forall|i: int| 0 <= i < rows@.len() ==> window_row_is_valid(#[trigger] rows@[i]))
                ==> (r matches Ok(ws) && ws@.len() == rows@.len() && forall|i: int|
                0 <= i < rows@.len() ==> window_from_row(#[trigger] ws@[i], rows@[i])),
            !(forall|i: int| 0 <= i < rows@.len() ==> window_row_is_valid(#[trigger] rows@[i]))
                ==> exists|i: int|
                0 <= i < rows@.len() && !window_row_is_valid(#[trigger] rows@[i]) && (forall|j: int|
                    0 <= j < i ==> window_row_is_valid(#[trigger] rows@[j])) && (r matches Err(
                    WindowError::InvalidWindow(v),
                ) && preferred_temp_outcome(rows@[i].preferred_temperature) matches Err(e) && v@
                    == seq![e]),
    {
        let mut windows: Vec<Window> = Vec::new();
        let mut i: usize = 0;
        while i < rows.len()
            invariant
                i <= rows@.len(),
                windows@.len() == i,
                forall|j: int| 0 <= j < i ==> window_row_is_valid(#[trigger] rows@[j]),
                forall|j: int| 0 <= j < i ==> window_from_row(#[trigger] windows@[j], rows@[j]),
            decreases rows@.len() - i,
        {
            let row = rows[i];
            match Window::parse(
                row.id,
                row.preferred_temperature,
                row.preferred_wake_up_time,
                row.preferred_bedtime,
            ) {
                Ok(w) => windows.push(w),
                Err(e) => {
                    assert(!window_row_is_valid(rows@[i as int]));
                    return Err(e);
                },
            }
            i = i + 1;
        }
        Ok(windows)
    }
}

impl WindowValidationError {
    /// The text the error is written as.
    pub open spec fn spec_message(self) -> Seq<char> {
        match self {
            WindowValidationError::InvalidPreferredTemperature { min, max, actual } =>
                "Invalid window preferred temperature: (min: "@ + signed_decimal(min as int)
                + ", max: "@ + signed_decimal(max as int) + ", actual: "@ + signed_decimal(
                actual as int,
            ) + ")"@,
        }
    }

    /// The text the error is written as (its `Display`).
    pub fn message(&self) -> (s: String)
        ensures
            s@ == self.spec_message(),
    {
        match self {
            WindowValidationError::InvalidPreferredTemperature { min, max, actual } => {
                let s = String::from_str("Invalid window preferred temperature: (min: ");
                let s = concat(s, i16_string(*min).as_str());
                let s = concat(s, ", max: ");
                let s = concat(s, i16_string(*max).as_str());
                let s = concat(s, ", actual: ");
                let s = concat(s, i16_string(*actual).as_str());
                concat(s, ")")
            },
        }
    }
}

/// A preferred temperature is accepted exactly within -5 to 30 degrees, and
/// is kept as given.
pub proof fn preferred_temp_range(temp: i16)
    ensures
        preferred_temp_outcome(temp) is Ok <==> PREFERRED_TEMP_MIN <= temp <= PREFERRED_TEMP_MAX,
        preferred_temp_outcome(temp) matches Ok(t) ==> t == temp,
{
}

} // verus!

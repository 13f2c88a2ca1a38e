//! The hourly table's data and its display arithmetic.
//!
//! The table itself is drawn by an unverified widget; what is verified
//! here is the data it holds and the two small computations behind its
//! cells: the twelve-hour clock label and the width of the
//! precipitation gauge.

use vstd::prelude::*;

use crate::weather::Weather;

verus! {

/// The rows of the hourly table: one point of weather per row.
#[derive(Clone, Debug, PartialEq)]
pub struct WeatherTable {
    pub data: Vec<Weather>,
}

/// A twenty-four-hour clock hour on the twelve-hour clock: the shown
/// hour and whether it is PM.  Midnight shows as 12 AM and noon as
/// 12 PM.
pub open spec fn spec_twelve_hour(hour: u8) -> (u8, bool) {
    let shown: u8 = if hour == 0 {
        12
    } else if hour <= 12 {
        hour
    } else {
        (hour - 12) as u8
    };
    (shown, hour >= 12)
}

/// How many of the ten gauge cells a precipitation probability fills;
/// the rest stay empty.
pub open spec fn spec_precip_cells(pct: u8) -> int {
    pct * 10 / 100
}

impl WeatherTable {
    /// A table over the given rows.
    pub fn new(weather: Vec<Weather>) -> (r: Self)
        ensures
            r.data == weather,
    {
        WeatherTable { data: weather }
    }

    /// Converts a twenty-four-hour clock hour to the twelve-hour clock:
    /// the shown hour and whether it is PM.
    pub fn twelve_hour(hour: u8) -> (r: (u8, bool))
        ensures
            r == spec_twelve_hour(hour),
            hour < 24 ==> 1 <= r.0 <= 12,
    {
        let shown: u8 = if hour == 0 {
            12
        } else if hour <= 12 {
            hour
        } else {
            hour - 12
        };
        (shown, hour >= 12)
    }

    /// Splits the ten-cell precipitation gauge into its filled and its
    /// empty part.
    pub fn precip_bar_widths(pct: u8) -> (r: (usize, usize))
        requires
            pct <= 100,
        ensures
            r.0 == spec_precip_cells(pct),
            r.0 + r.1 == 10,
    {
        let filled: usize = (pct as usize) * 10 / 100;
        (filled, 10 - filled)
    }
}

} // verus!

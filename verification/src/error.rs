//! The failure kinds a refresh attempt can end in.

use vstd::prelude::*;

verus! {

/// Why one end-to-end refresh attempt produced no data.  Every failure of
/// the geocoding or forecast collaborators is folded into one of these
/// kinds; none of them reaches the screen as a distinct signal.
#[derive(Clone, Copy, Debug, PartialEq, Eq, Structural)]
pub enum WeatherError {
    /// The query resolved to no location at all.
    ResolutionFailure,
    /// The transport failed: connection, name lookup or timeout.
    NetworkFailure,
    /// A payload arrived but did not spell a well-formed forecast.
    ParseFailure,
    /// The local time zone could not be determined for the forecast call.
    TimezoneFailure,
}

} // verus!

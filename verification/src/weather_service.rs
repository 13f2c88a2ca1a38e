//! What one completed refresh delivers back to the session loop.

use vstd::prelude::*;

use crate::weather::OpenMeteoResponse;

verus! {

/// The payload of one successful refresh: a fresh forecast and the
/// display name of the place it is for.  The pair replaces the previous
/// one wholesale; there is no merging.
#[derive(Clone, Debug, PartialEq)]
pub struct WeatherData {
    pub weather: OpenMeteoResponse,
    pub location_name: String,
}

impl WeatherData {
    /// The carried forecast is well formed.
    pub open spec fn wf(self) -> bool {
        self.weather.wf()
    }
}

} // verus!

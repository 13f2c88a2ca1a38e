//! The forecast series and the code table that describes its weather.
//!
//! A forecast is two aligned, time-indexed series: an hourly one and a
//! daily one.  Temperatures are carried in tenths of a degree Fahrenheit
//! so that every field is a plain integer.  The well-formedness invariant
//! ties the field vectors of each series to one length and keeps the
//! timestamps strictly increasing; [`OpenMeteoResponse::from_parts`]
//! establishes it once for a freshly fetched payload.

use vstd::prelude::*;

use crate::date::{Date, DateTime};
use crate::error::WeatherError;
use crate::find::{lemma_spec_find, lemma_spec_find_at, lemma_spec_find_none, spec_find};

verus! {

/// The hourly forecast series: index `i` across all five vectors
/// describes one hour.  Temperatures are tenths of a degree Fahrenheit.
#[derive(Clone, Debug, PartialEq)]
pub struct OpenMeteoHourly {
    pub date_time: Vec<DateTime>,
    pub temperature_2m: Vec<i32>,
    pub apparent_temperature: Vec<i32>,
    pub precipitation_probability: Vec<u16>,
    pub weather_code: Vec<u16>,
}

/// The daily forecast series: index `i` across all five vectors describes
/// one day.  Temperatures are tenths of a degree Fahrenheit.
#[derive(Clone, Debug, PartialEq)]
pub struct OpenMeteoDaily {
    pub date: Vec<Date>,
    pub weather_code: Vec<u16>,
    pub temperature_2m_max: Vec<i32>,
    pub apparent_temperature_max: Vec<i32>,
    pub precipitation_probability_max: Vec<u16>,
}

/// One forecast payload: the hourly and the daily series of one fetch.
#[derive(Clone, Debug, PartialEq)]
pub struct OpenMeteoResponse {
    pub hourly: OpenMeteoHourly,
    pub daily: OpenMeteoDaily,
}

impl OpenMeteoHourly {
    /// All field vectors share one length, every timestamp is a valid
    /// clock time, and the timestamps strictly increase.
    pub open spec fn wf(self) -> bool {
        &&& self.temperature_2m@.len() == self.date_time@.len()
        &&& self.apparent_temperature@.len() == self.date_time@.len()
        &&& self.precipitation_probability@.len() == self.date_time@.len()
        &&& self.weather_code@.len() == self.date_time@.len()
        &&& forall|i: int| 0 <= i < self.date_time@.len() ==> (#[trigger] self.date_time@[i]).wf()
        &&& forall|i: int, j: int|
            0 <= i < j < self.date_time@.len() ==> #[trigger] self.date_time@[i].key()
                < #[trigger] self.date_time@[j].key()
    }
}

impl OpenMeteoDaily {
    /// All field vectors share one length, every date is a valid calendar
    /// day, and the dates strictly increase.
    pub open spec fn wf(self) -> bool {
        &&& self.weather_code@.len() == self.date@.len()
        &&& self.temperature_2m_max@.len() == self.date@.len()
        &&& self.apparent_temperature_max@.len() == self.date@.len()
        &&& self.precipitation_probability_max@.len() == self.date@.len()
        &&& forall|i: int| 0 <= i < self.date@.len() ==> (#[trigger] self.date@[i]).wf()
        &&& forall|i: int, j: int|
            0 <= i < j < self.date@.len() ==> #[trigger] self.date@[i].key()
                < #[trigger] self.date@[j].key()
    }
}

impl OpenMeteoResponse {
    /// Both series are well formed.
    pub open spec fn wf(self) -> bool {
        self.hourly.wf() && self.daily.wf()
    }
}

impl OpenMeteoHourly {
    /// Tests the whole invariant: aligned lengths, valid timestamps,
    /// strictly increasing order.
    pub fn valid(&self) -> (b: bool)
        ensures
            b == self.wf(),
    {
        let n = self.date_time.len();
        if self.temperature_2m.len() != n || self.apparent_temperature.len() != n
            || self.precipitation_probability.len() != n || self.weather_code.len() != n {
            return false;
        }
        let mut i: usize = 0;
        while i < n
            invariant
                i <= n,
                n == self.date_time@.len(),
                forall|k: int| 0 <= k < i ==> (#[trigger] self.date_time@[k]).wf(),
                forall|k1: int, k2: int|
                    0 <= k1 < k2 < i ==> #[trigger] self.date_time@[k1].key()
                        < #[trigger] self.date_time@[k2].key(),
            decreases n - i,
        {
            if !self.date_time[i].valid() {
                return false;
            }
            if i > 0 && self.date_time[i - 1].key64() >= self.date_time[i].key64() {
                return false;
            }
            i = i + 1;
        }
        true
    }
}

impl OpenMeteoDaily {
    /// Tests the whole invariant: aligned lengths, valid dates, strictly
    /// increasing order.
    pub fn valid(&self) -> (b: bool)
        ensures
            b == self.wf(),
    {
        let n = self.date.len();
        if self.weather_code.len() != n || self.temperature_2m_max.len() != n
            || self.apparent_temperature_max.len() != n
            || self.precipitation_probability_max.len() != n {
            return false;
        }
        let mut i: usize = 0;
        while i < n
            invariant
                i <= n,
                n == self.date@.len(),
                forall|k: int| 0 <= k < i ==> (#[trigger] self.date@[k]).wf(),
                forall|k1: int, k2: int|
                    0 <= k1 < k2 < i ==> #[trigger] self.date@[k1].key()
                        < #[trigger] self.date@[k2].key(),
            decreases n - i,
        {
            if !self.date[i].valid() {
                return false;
            }
            if i > 0 && self.date[i - 1].key64() >= self.date[i].key64() {
                return false;
            }
            i = i + 1;
        }
        true
    }
}

impl OpenMeteoResponse {
    /// Builds a forecast from freshly decoded series, accepting it only
    /// when the invariant holds; anything else is a malformed payload.
    pub fn from_parts(hourly: OpenMeteoHourly, daily: OpenMeteoDaily) -> (r: Result<
        OpenMeteoResponse,
        WeatherError,
    >)
        ensures
            match r {
                Ok(resp) => resp == (OpenMeteoResponse { hourly, daily }) && resp.wf(),
                Err(e) => e == WeatherError::ParseFailure && !(OpenMeteoResponse {
                    hourly,
                    daily,
                }).wf(),
            },
    {
        if hourly.valid() && daily.valid() {
            Ok(OpenMeteoResponse { hourly, daily })
        } else {
            Err(WeatherError::ParseFailure)
        }
    }
}

/// One displayable point of weather: the fields of one hour or one day.
/// Temperatures are tenths of a degree Fahrenheit.
#[derive(Clone, Copy, Debug, PartialEq, Eq, Structural)]
pub struct Weather {
    pub weather_code: u16,
    pub precip: u16,
    pub temp: i32,
    pub apparent_temp: i32,
    pub date_time: DateTime,
}

/// Which point of a forecast to look up: one day of the daily series or
/// one hour of the hourly series.
#[derive(Clone, Copy, Debug, PartialEq, Eq, Structural)]
pub enum WeatherQuery {
    Daily { date: Date },
    Hourly { date_time: DateTime },
}

/// The text and the pictogram that describe a weather code, as the
/// characters each one spells.
pub open spec fn spec_weather_description(code: u16) -> (Seq<char>, Seq<char>) {
    if code == 0 {
        ("Clear sky"@, "☀️"@)
    } else if code == 1 {
        ("Mainly clear"@, "🌤️"@)
    } else if code == 2 {
        ("Partly cloudy"@, "⛅"@)
    } else if code == 3 {
        ("Overcast"@, "☁️"@)
    } else if code == 45 {
        ("Fog"@, "🌫️"@)
    } else if code == 48 {
        ("Depositing rime fog"@, "🌫️❄️"@)
    } else if code == 51 {
        ("Light drizzle"@, "🌦️"@)
    } else if code == 53 {
        ("Moderate drizzle"@, "🌧️"@)
    } else if code == 55 {
        ("Dense drizzle"@, "🌧️"@)
    } else if code == 56 {
        ("Light freezing drizzle"@, "🌧️❄️"@)
    } else if code == 57 {
        ("Dense freezing drizzle"@, "🌧️❄️"@)
    } else if code == 61 {
        ("Slight rain"@, "🌦️"@)
    } else if code == 63 {
        ("Moderate rain"@, "🌧️"@)
    } else if code == 65 {
        ("Heavy rain"@, "🌧️🌧️"@)
    } else if code == 66 {
        ("Light freezing rain"@, "🌧️❄️"@)
    } else if code == 67 {
        ("Heavy freezing rain"@, "🌧️❄️❄️"@)
    } else if code == 71 {
        ("Slight snow fall"@, "🌨️"@)
    } else if code == 73 {
        ("Moderate snow fall"@, "🌨️❄️"@)
    } else if code == 75 {
        ("Heavy snow fall"@, "❄️❄️"@)
    } else if code == 77 {
        ("Snow grains"@, "🌨️🧂"@)
    } else if code == 80 {
        ("Slight rain showers"@, "🌦️"@)
    } else if code == 81 {
        ("Moderate rain showers"@, "🌧️"@)
    } else if code == 82 {
        ("Violent rain showers"@, "⛈️"@)
    } else if code == 85 {
        ("Slight snow showers"@, "🌨️"@)
    } else if code == 86 {
        ("Heavy snow showers"@, "❄️❄️"@)
    } else if code == 95 {
        ("Thunderstorm"@, "🌩️"@)
    } else if code == 96 {
        ("Thunderstorm w/ hail"@, "⛈️🧊"@)
    } else if code == 99 {
        ("Heavy TS w/ hail"@, "⛈️🧊🧊"@)
    } else {
        ("Unknown"@, "❓"@)
    }
}

/// Maps a weather code to its description and pictogram; codes outside
/// the table map to the unknown marker.
pub fn get_weather_description(code: u16) -> (r: (&'static str, &'static str))
    ensures
        r.0@ == spec_weather_description(code).0,
        r.1@ == spec_weather_description(code).1,
{
    match code {
        0 => ("Clear sky", "☀️"),
        1 => ("Mainly clear", "🌤️"),
        2 => ("Partly cloudy", "⛅"),
        3 => ("Overcast", "☁️"),
        45 => ("Fog", "🌫️"),
        48 => ("Depositing rime fog", "🌫️❄️"),
        51 => ("Light drizzle", "🌦️"),
        53 => ("Moderate drizzle", "🌧️"),
        55 => ("Dense drizzle", "🌧️"),
        56 => ("Light freezing drizzle", "🌧️❄️"),
        57 => ("Dense freezing drizzle", "🌧️❄️"),
        61 => ("Slight rain", "🌦️"),
        63 => ("Moderate rain", "🌧️"),
        65 => ("Heavy rain", "🌧️🌧️"),
        66 => ("Light freezing rain", "🌧️❄️"),
        67 => ("Heavy freezing rain", "🌧️❄️❄️"),
        71 => ("Slight snow fall", "🌨️"),
        73 => ("Moderate snow fall", "🌨️❄️"),
        75 => ("Heavy snow fall", "❄️❄️"),
        77 => ("Snow grains", "🌨️🧂"),
        80 => ("Slight rain showers", "🌦️"),
        81 => ("Moderate rain showers", "🌧️"),
        82 => ("Violent rain showers", "⛈️"),
        85 => ("Slight snow showers", "🌨️"),
        86 => ("Heavy snow showers", "❄️❄️"),
        95 => ("Thunderstorm", "🌩️"),
        96 => ("Thunderstorm w/ hail", "⛈️🧊"),
        99 => ("Heavy TS w/ hail", "⛈️🧊🧊"),
        _ => ("Unknown", "❓"),
    }
}

/// The calendar days of a run of timestamps, hour by hour.
pub open spec fn dt_dates(s: Seq<DateTime>) -> Seq<Date> {
    s.map_values(|dt: DateTime| dt.date)
}

/// Where the display slice of a day starts in an hourly run: at the first
/// hour of that day, or at the front when the day does not occur.
pub open spec fn spec_start_index(s: Seq<DateTime>, d: Date) -> int {
    let f = spec_find(dt_dates(s), d);
    if f == -1 {
        0
    } else {
        f
    }
}

/// Returns the index at which the display slice of `date` starts in
/// `times`: its first hour, or 0 when the day does not occur.
pub fn day_start_index(times: &Vec<DateTime>, date: Date) -> (r: usize)
    ensures
        r == spec_start_index(times@, date),
{
    let n = times.len();
    let mut i: usize = 0;
    while i < n
        invariant
            i <= n,
            n == times@.len(),
            forall|k: int| 0 <= k < i ==> (#[trigger] times@[k]).date != date,
        decreases n - i,
    {
        if times[i].date == date {
            proof {
                assert forall|k: int| 0 <= k < i implies dt_dates(times@)[k] != date by {
                    assert(dt_dates(times@)[k] == times@[k].date);
                }
                assert(dt_dates(times@)[i as int] == times@[i as int].date);
                lemma_spec_find_at(dt_dates(times@), date, i as int);
            }
            return i;
        }
        i = i + 1;
    }
    proof {
        assert forall|k: int| 0 <= k < dt_dates(times@).len() implies dt_dates(times@)[k]
            != date by {
            assert(dt_dates(times@)[k] == times@[k].date);
        }
        lemma_spec_find_none(dt_dates(times@), date);
    }
    0
}

/// Returns the first index of `x` in `v`, if `v` holds it at all.
pub fn find_date(v: &Vec<Date>, x: Date) -> (r: Option<usize>)
    ensures
        match r {
            Some(i) => spec_find(v@, x) == i && i < v@.len() && v@[i as int] == x,
            None => spec_find(v@, x) == -1 && forall|k: int| 0 <= k < v@.len() ==> v@[k] != x,
        },
{
    let n = v.len();
    let mut i: usize = 0;
    while i < n
        invariant
            i <= n,
            n == v@.len(),
            forall|k: int| 0 <= k < i ==> v@[k] != x,
        decreases n - i,
    {
        if v[i] == x {
            proof {
                lemma_spec_find_at(v@, x, i as int);
            }
            return Some(i);
        }
        i = i + 1;
    }
    proof {
        lemma_spec_find_none(v@, x);
    }
    None
}

/// Returns the first index of `x` in `v`, if `v` holds it at all.
pub fn find_date_time(v: &Vec<DateTime>, x: DateTime) -> (r: Option<usize>)
    ensures
        match r {
            Some(i) => spec_find(v@, x) == i && i < v@.len() && v@[i as int] == x,
            None => spec_find(v@, x) == -1 && forall|k: int| 0 <= k < v@.len() ==> v@[k] != x,
        },
{
    let n = v.len();
    let mut i: usize = 0;
    while i < n
        invariant
            i <= n,
            n == v@.len(),
            forall|k: int| 0 <= k < i ==> v@[k] != x,
        decreases n - i,
    {
        if v[i] == x {
            proof {
                lemma_spec_find_at(v@, x, i as int);
            }
            return Some(i);
        }
        i = i + 1;
    }
    proof {
        lemma_spec_find_none(v@, x);
    }
    None
}

/// Projects the hourly series onto one selected day: the 24 consecutive
/// hours that start at the day's first hour, or at the front of the
/// series when the day does not occur.  The caller supplies a series
/// long enough for a full slice, as the forecast horizon guarantees.
pub fn hourly_weather_for(data: &OpenMeteoResponse, date: Date) -> (v: Vec<Weather>)
    requires
        data.wf(),
        spec_start_index(data.hourly.date_time@, date) + 24 <= data.hourly.date_time@.len(),
    ensures
        v@.len() == 24,
        forall|k: int|
            0 <= k < 24 ==> v@[k] == (Weather {
                weather_code: data.hourly.weather_code@[spec_start_index(
                    data.hourly.date_time@,
                    date,
                ) + k],
                precip: data.hourly.precipitation_probability@[spec_start_index(
                    data.hourly.date_time@,
                    date,
                ) + k],
                temp: data.hourly.temperature_2m@[spec_start_index(data.hourly.date_time@, date)
                    + k],
                apparent_temp: data.hourly.apparent_temperature@[spec_start_index(
                    data.hourly.date_time@,
                    date,
                ) + k],
                date_time: data.hourly.date_time@[spec_start_index(data.hourly.date_time@, date)
                    + k],
            }),
        forall|k1: int, k2: int|
            0 <= k1 < k2 < 24 ==> v@[k1].date_time.key() < v@[k2].date_time.key(),
        spec_find(dt_dates(data.hourly.date_time@), date) != -1 ==> v@[0].date_time.date == date,
{
    let ghost start_spec = spec_start_index(data.hourly.date_time@, date);
    let n = data.hourly.date_time.len();
    let start = day_start_index(&data.hourly.date_time, date);
    let mut v: Vec<Weather> = Vec::new();
    let mut k: usize = 0;
    while k < 24
        invariant
            k <= 24,
            start == start_spec,
            n == data.hourly.date_time@.len(),
            start + 24 <= n,
            data.wf(),
            v@.len() == k,
            forall|j: int|
                0 <= j < k ==> v@[j] == (Weather {
                    weather_code: data.hourly.weather_code@[start + j],
                    precip: data.hourly.precipitation_probability@[start + j],
                    temp: data.hourly.temperature_2m@[start + j],
                    apparent_temp: data.hourly.apparent_temperature@[start + j],
                    date_time: data.hourly.date_time@[start + j],
                }),
        decreases 24 - k,
    {
        let w = Weather {
            weather_code: data.hourly.weather_code[start + k],
            precip: data.hourly.precipitation_probability[start + k],
            temp: data.hourly.temperature_2m[start + k],
            apparent_temp: data.hourly.apparent_temperature[start + k],
            date_time: data.hourly.date_time[start + k],
        };
        v.push(w);
        k = k + 1;
    }
    proof {
        if spec_find(dt_dates(data.hourly.date_time@), date) != -1 {
            lemma_spec_find(dt_dates(data.hourly.date_time@), date);
            assert(dt_dates(data.hourly.date_time@)[start_spec] == data.hourly.date_time@[
                start_spec].date);
        }
    }
    v
}

/// Looks one point of the forecast up: a day of the daily series or an
/// hour of the hourly series, by its exact timestamp.  Yields nothing
/// when the series does not hold the requested point.
pub fn weather_lookup(data: &OpenMeteoResponse, query: WeatherQuery) -> (r: Option<Weather>)
    requires
        data.wf(),
    ensures
        match query {
            WeatherQuery::Daily { date } => {
                let f = spec_find(data.daily.date@, date);
                if f == -1 {
                    r is None
                } else {
                    r == Some(Weather {
                        weather_code: data.daily.weather_code@[f],
                        precip: data.daily.precipitation_probability_max@[f],
                        temp: data.daily.temperature_2m_max@[f],
                        apparent_temp: data.daily.apparent_temperature_max@[f],
                        date_time: DateTime { date, hour: 0, minute: 0 },
                    })
                }
            },
            WeatherQuery::Hourly { date_time } => {
                let f = spec_find(data.hourly.date_time@, date_time);
                if f == -1 {
                    r is None
                } else {
                    r == Some(Weather {
                        weather_code: data.hourly.weather_code@[f],
                        precip: data.hourly.precipitation_probability@[f],
                        temp: data.hourly.temperature_2m@[f],
                        apparent_temp: data.hourly.apparent_temperature@[f],
                        date_time: data.hourly.date_time@[f],
                    })
                }
            },
        },
{
    match query {
        WeatherQuery::Daily { date } => {
            match find_date(&data.daily.date, date) {
                Some(i) => {
                    proof {
                        lemma_spec_find(data.daily.date@, date);
                    }
                    Some(
                        Weather {
                            weather_code: data.daily.weather_code[i],
                            precip: data.daily.precipitation_probability_max[i],
                            temp: data.daily.temperature_2m_max[i],
                            apparent_temp: data.daily.apparent_temperature_max[i],
                            date_time: DateTime { date, hour: 0, minute: 0 },
                        },
                    )
                },
                None => None,
            }
        },
        WeatherQuery::Hourly { date_time } => {
            match find_date_time(&data.hourly.date_time, date_time) {
                Some(i) => {
                    proof {
                        lemma_spec_find(data.hourly.date_time@, date_time);
                    }
                    Some(
                        Weather {
                            weather_code: data.hourly.weather_code[i],
                            precip: data.hourly.precipitation_probability[i],
                            temp: data.hourly.temperature_2m[i],
                            apparent_temp: data.hourly.apparent_temperature[i],
                            date_time: data.hourly.date_time[i],
                        },
                    )
                },
                None => None,
            }
        },
    }
}

impl Default for OpenMeteoHourly {
    /// The empty hourly series.
    fn default() -> (r: Self)
        ensures
            r.date_time@.len() == 0,
            r.wf(),
    {
        OpenMeteoHourly {
            date_time: Vec::new(),
            temperature_2m: Vec::new(),
            apparent_temperature: Vec::new(),
            precipitation_probability: Vec::new(),
            weather_code: Vec::new(),
        }
    }
}

impl Default for OpenMeteoDaily {
    /// The empty daily series.
    fn default() -> (r: Self)
        ensures
            r.date@.len() == 0,
            r.wf(),
    {
        OpenMeteoDaily {
            date: Vec::new(),
            weather_code: Vec::new(),
            temperature_2m_max: Vec::new(),
            apparent_temperature_max: Vec::new(),
            precipitation_probability_max: Vec::new(),
        }
    }
}

impl Default for OpenMeteoResponse {
    /// The empty forecast: both series empty.
    fn default() -> (r: Self)
        ensures
            r.hourly.date_time@.len() == 0,
            r.daily.date@.len() == 0,
            r.wf(),
    {
        OpenMeteoResponse { hourly: OpenMeteoHourly::default(), daily: OpenMeteoDaily::default() }
    }
}

} // verus!

use weather_tui::date::{Date, DateTime};
use weather_tui::error::WeatherError;
use weather_tui::weather::{
    day_start_index, find_date, get_weather_description, hourly_weather_for, weather_lookup,
    OpenMeteoDaily, OpenMeteoHourly, OpenMeteoResponse, WeatherQuery,
};

fn day(d: u8) -> Date {
    Date { year: 2024, month: 6, day: d }
}

fn hourly_7day() -> OpenMeteoHourly {
    let mut date_time = Vec::new();
    let mut temperature_2m = Vec::new();
    let mut apparent_temperature = Vec::new();
    let mut precipitation_probability = Vec::new();
    let mut weather_code = Vec::new();
    for d in 0..7u8 {
        for h in 0..24u8 {
            date_time.push(DateTime { date: day(10 + d), hour: h, minute: 0 });
            temperature_2m.push(600 + (d as i32) * 100 + (h as i32));
            apparent_temperature.push(590 + (h as i32));
            precipitation_probability.push((h as u16) * 4);
            weather_code.push(if h % 2 == 0 { 0 } else { 61 });
        }
    }
    OpenMeteoHourly {
        date_time,
        temperature_2m,
        apparent_temperature,
        precipitation_probability,
        weather_code,
    }
}

fn daily_7day() -> OpenMeteoDaily {
    OpenMeteoDaily {
        date: (0..7u8).map(|d| day(10 + d)).collect(),
        weather_code: vec![0, 1, 2, 3, 45, 61, 95],
        temperature_2m_max: vec![705, 710, 715, 720, 725, 730, 735],
        apparent_temperature_max: vec![690, 695, 700, 705, 710, 715, 720],
        precipitation_probability_max: vec![0, 10, 20, 30, 40, 50, 60],
    }
}

fn series_7day() -> OpenMeteoResponse {
    OpenMeteoResponse::from_parts(hourly_7day(), daily_7day()).unwrap()
}

#[test]
fn from_parts_accepts_a_well_formed_payload() {
    let resp = OpenMeteoResponse::from_parts(hourly_7day(), daily_7day());
    assert!(resp.is_ok());
    let resp = resp.unwrap();
    assert_eq!(resp.hourly.date_time.len(), 168);
    assert_eq!(resp.daily.date.len(), 7);
}

#[test]
fn from_parts_rejects_misaligned_series() {
    let mut hourly = hourly_7day();
    hourly.temperature_2m.pop();
    assert_eq!(
        OpenMeteoResponse::from_parts(hourly, daily_7day()),
        Err(WeatherError::ParseFailure)
    );
    let mut daily = daily_7day();
    daily.weather_code.push(0);
    assert_eq!(
        OpenMeteoResponse::from_parts(hourly_7day(), daily),
        Err(WeatherError::ParseFailure)
    );
}

#[test]
fn from_parts_rejects_unordered_timestamps() {
    let mut hourly = hourly_7day();
    hourly.date_time[5] = hourly.date_time[4];
    assert_eq!(
        OpenMeteoResponse::from_parts(hourly, daily_7day()),
        Err(WeatherError::ParseFailure)
    );
    let mut daily = daily_7day();
    daily.date.swap(0, 1);
    assert_eq!(
        OpenMeteoResponse::from_parts(hourly_7day(), daily),
        Err(WeatherError::ParseFailure)
    );
}

#[test]
fn from_parts_rejects_days_outside_the_calendar() {
    let mut daily = daily_7day();
    daily.date[6] = Date { year: 2024, month: 6, day: 31 };
    assert_eq!(
        OpenMeteoResponse::from_parts(hourly_7day(), daily),
        Err(WeatherError::ParseFailure)
    );
}

#[test]
fn projecting_a_present_day_yields_its_24_hours() {
    let resp = series_7day();
    let slice = hourly_weather_for(&resp, day(12));
    assert_eq!(slice.len(), 24);
    assert_eq!(slice[0].date_time, DateTime { date: day(12), hour: 0, minute: 0 });
    for h in 0..24usize {
        assert_eq!(slice[h].date_time.date, day(12));
        assert_eq!(slice[h].date_time.hour, h as u8);
        assert_eq!(slice[h].temp, 600 + 200 + h as i32);
    }
    for h in 1..24usize {
        assert!(slice[h - 1].date_time.key64() < slice[h].date_time.key64());
    }
}

#[test]
fn projecting_an_absent_day_starts_at_the_front() {
    let resp = series_7day();
    assert_eq!(day_start_index(&resp.hourly.date_time, day(9)), 0);
    let slice = hourly_weather_for(&resp, day(9));
    assert_eq!(slice.len(), 24);
    assert_eq!(slice[0].date_time, DateTime { date: day(10), hour: 0, minute: 0 });
}

#[test]
fn daily_lookup_finds_a_present_day() {
    let resp = series_7day();
    let w = weather_lookup(&resp, WeatherQuery::Daily { date: day(11) }).unwrap();
    assert_eq!(w.weather_code, 1);
    assert_eq!(w.temp, 710);
    assert_eq!(w.apparent_temp, 695);
    assert_eq!(w.precip, 10);
    assert_eq!(w.date_time, DateTime { date: day(11), hour: 0, minute: 0 });
}

#[test]
fn daily_lookup_misses_an_absent_day() {
    let resp = series_7day();
    assert!(weather_lookup(&resp, WeatherQuery::Daily { date: day(9) }).is_none());
}

#[test]
fn hourly_lookup_goes_by_the_exact_timestamp() {
    let resp = series_7day();
    let at = DateTime { date: day(10), hour: 5, minute: 0 };
    let w = weather_lookup(&resp, WeatherQuery::Hourly { date_time: at }).unwrap();
    assert_eq!(w.temp, 605);
    assert_eq!(w.precip, 20);
    assert_eq!(w.weather_code, 61);
    let off = DateTime { date: day(10), hour: 5, minute: 30 };
    assert!(weather_lookup(&resp, WeatherQuery::Hourly { date_time: off }).is_none());
}

#[test]
fn find_date_reports_the_first_match() {
    let daily = daily_7day();
    assert_eq!(find_date(&daily.date, day(10)), Some(0));
    assert_eq!(find_date(&daily.date, day(16)), Some(6));
    assert_eq!(find_date(&daily.date, day(17)), None);
}

#[test]
fn weather_descriptions_follow_the_code_table() {
    assert_eq!(get_weather_description(0), ("Clear sky", "\u{2600}\u{fe0f}"));
    assert_eq!(get_weather_description(45).0, "Fog");
    assert_eq!(get_weather_description(95).0, "Thunderstorm");
    assert_eq!(get_weather_description(99).0, "Heavy TS w/ hail");
    assert_eq!(get_weather_description(42), ("Unknown", "\u{2753}"));
}

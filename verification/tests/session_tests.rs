use weather_tui::app::{App, Command};
use weather_tui::date::{Date, DateTime};
use weather_tui::loader::Loader;
use weather_tui::search::{Key, Mods, SearchAction};
use weather_tui::weather::{OpenMeteoDaily, OpenMeteoHourly, OpenMeteoResponse};
use weather_tui::weather_service::WeatherData;

fn day(d: u8) -> Date {
    Date { year: 2024, month: 6, day: d }
}

fn series_7day() -> OpenMeteoResponse {
    let mut date_time = Vec::new();
    let mut temperature_2m = Vec::new();
    let mut apparent_temperature = Vec::new();
    let mut precipitation_probability = Vec::new();
    let mut weather_code = Vec::new();
    for d in 0..7u8 {
        for h in 0..24u8 {
            date_time.push(DateTime { date: day(10 + d), hour: h, minute: 0 });
            temperature_2m.push(600 + (h as i32));
            apparent_temperature.push(590);
            precipitation_probability.push(0);
            weather_code.push(0);
        }
    }
    let hourly = OpenMeteoHourly {
        date_time,
        temperature_2m,
        apparent_temperature,
        precipitation_probability,
        weather_code,
    };
    let daily = OpenMeteoDaily {
        date: (0..7u8).map(|d| day(10 + d)).collect(),
        weather_code: vec![0; 7],
        temperature_2m_max: vec![705; 7],
        apparent_temperature_max: vec![690; 7],
        precipitation_probability_max: vec![40; 7],
    };
    OpenMeteoResponse::from_parts(hourly, daily).unwrap()
}

fn boston_delivery() -> WeatherData {
    WeatherData { weather: series_7day(), location_name: String::from("Boston, MA, USA") }
}

#[test]
fn a_fresh_session_shows_nothing_and_runs_nothing() {
    let app = App::new();
    assert_eq!(app.location_name, None);
    assert_eq!(app.hourly.date_time.len(), 0);
    assert_eq!(app.daily.data.date.len(), 0);
    assert_eq!(app.daily.selected_date, None);
    assert!(!app.loading);
    assert!(!app.exit);
    assert_eq!(app.task, None);
    assert_eq!(app.next_task, 0);
}

#[test]
fn control_c_quits() {
    let mut app = App::new();
    let cmd = app.tick(Some((Key::Char('c'), Mods::control_only())), String::new(), None);
    assert_eq!(cmd, Command::Idle);
    assert!(app.exit);
}

#[test]
fn plain_c_is_search_input_not_quit() {
    let mut app = App::new();
    let cmd = app.tick(Some((Key::Char('c'), Mods::none())), String::from("bos"), None);
    assert_eq!(cmd, Command::Editor(SearchAction::Input));
    assert!(!app.exit);
}

#[test]
fn enter_starts_a_refresh_and_loading_shows_at_once() {
    let mut app = App::new();
    let cmd = app.tick(Some((Key::Enter, Mods::none())), String::from("Boston"), None);
    assert_eq!(cmd, Command::StartRefresh { task: 0, query: String::from("Boston") });
    assert!(app.loading);
    assert_eq!(app.task, Some(0));
    assert_eq!(app.next_task, 1);
}

#[test]
fn control_r_also_starts_a_refresh() {
    let mut app = App::new();
    let cmd = app.tick(Some((Key::Char('r'), Mods::control_only())), String::from("q"), None);
    assert_eq!(cmd, Command::StartRefresh { task: 0, query: String::from("q") });
    assert!(app.loading);
}

#[test]
fn a_completed_refresh_replaces_everything_together() {
    let mut app = App::new();
    app.tick(Some((Key::Enter, Mods::none())), String::from("Boston"), None);
    let cmd = app.tick(None, String::new(), Some((0, boston_delivery())));
    assert_eq!(cmd, Command::Idle);
    assert_eq!(app.location_name, Some(String::from("Boston, MA, USA")));
    assert!(!app.loading);
    assert_eq!(app.daily.selected_date, Some(day(10)));
    assert_eq!(app.hourly.date_time.len(), 168);
    assert_eq!(app.daily.data.date.len(), 7);
    assert_eq!(app.loader, Loader { tick: 0, steps: 0 });
}

#[test]
fn a_failed_attempt_changes_nothing_and_keeps_loading() {
    let mut app = App::new();
    app.tick(Some((Key::Enter, Mods::none())), String::from("nowhere"), None);
    let before_location = app.location_name.clone();
    let before_daily = app.daily.clone();
    for _ in 0..5 {
        app.tick(None, String::new(), None);
    }
    assert!(app.loading);
    assert_eq!(app.location_name, before_location);
    assert_eq!(app.daily, before_daily);
    assert_eq!(app.hourly.date_time.len(), 0);
}

#[test]
fn a_second_refresh_leaves_exactly_one_live_task() {
    let mut app = App::new();
    let first = app.update_weather(String::from("a"));
    assert_eq!(first, Command::StartRefresh { task: 0, query: String::from("a") });
    let second = app.update_weather(String::from("b"));
    assert_eq!(second, Command::StartRefresh { task: 1, query: String::from("b") });
    assert_eq!(app.task, Some(1));
}

#[test]
fn a_result_of_a_canceled_task_never_alters_the_state() {
    let mut app = App::new();
    app.update_weather(String::from("a"));
    app.update_weather(String::from("b"));
    let before = app.clone();
    app.update_state(boston_delivery(), 0);
    assert_eq!(app, before);
    app.update_state(boston_delivery(), 1);
    assert_eq!(app.location_name, Some(String::from("Boston, MA, USA")));
    assert!(!app.loading);
}

#[test]
fn a_result_with_no_refresh_started_is_ignored() {
    let mut app = App::new();
    let before = app.clone();
    app.update_state(boston_delivery(), 0);
    assert_eq!(app, before);
}

#[test]
fn three_forward_and_three_back_restore_the_selection() {
    let mut app = App::new();
    app.update_weather(String::from("Boston"));
    app.update_state(boston_delivery(), 0);
    let original = app.daily.selected_date;
    for _ in 0..3 {
        app.tick(Some((Key::Tab, Mods::none())), String::new(), None);
    }
    assert_eq!(app.daily.selected_date, Some(day(13)));
    for _ in 0..3 {
        app.tick(Some((Key::BackTab, Mods::none())), String::new(), None);
    }
    assert_eq!(app.daily.selected_date, original);
}

#[test]
fn selection_wraps_around_the_week() {
    let mut app = App::new();
    app.update_weather(String::from("Boston"));
    app.update_state(boston_delivery(), 0);
    for _ in 0..7 {
        app.tick(Some((Key::Tab, Mods::none())), String::new(), None);
    }
    assert_eq!(app.daily.selected_date, Some(day(10)));
    app.tick(Some((Key::BackTab, Mods::none())), String::new(), None);
    assert_eq!(app.daily.selected_date, Some(day(16)));
}

#[test]
fn day_keys_do_nothing_on_an_empty_series() {
    let mut app = App::new();
    app.tick(Some((Key::Tab, Mods::none())), String::new(), None);
    assert_eq!(app.daily.selected_date, None);
    app.tick(Some((Key::BackTab, Mods::none())), String::new(), None);
    assert_eq!(app.daily.selected_date, None);
}

#[test]
fn a_kept_selection_survives_a_refresh_and_an_invalid_one_resets() {
    let mut app = App::new();
    app.update_weather(String::from("Boston"));
    app.update_state(boston_delivery(), 0);
    app.tick(Some((Key::Tab, Mods::none())), String::new(), None);
    assert_eq!(app.daily.selected_date, Some(day(11)));
    app.update_weather(String::from("Boston"));
    app.update_state(boston_delivery(), 1);
    assert_eq!(app.daily.selected_date, Some(day(11)));
    let moved_on = WeatherData {
        weather: OpenMeteoResponse::from_parts(
            OpenMeteoHourly {
                date_time: vec![DateTime { date: day(20), hour: 0, minute: 0 }],
                temperature_2m: vec![600],
                apparent_temperature: vec![590],
                precipitation_probability: vec![0],
                weather_code: vec![0],
            },
            OpenMeteoDaily {
                date: vec![day(20)],
                weather_code: vec![0],
                temperature_2m_max: vec![705],
                apparent_temperature_max: vec![690],
                precipitation_probability_max: vec![40],
            },
        )
        .unwrap(),
        location_name: String::from("Boston, MA, USA"),
    };
    app.update_weather(String::from("Boston"));
    app.update_state(moved_on, 2);
    assert_eq!(app.daily.selected_date, Some(day(20)));
}

#[test]
fn other_keys_go_to_the_search_box() {
    let mut app = App::new();
    let cmd = app.tick(Some((Key::Char('/'), Mods::none())), String::from("old"), None);
    assert_eq!(cmd, Command::Editor(SearchAction::Clear));
    let cmd = app.tick(Some((Key::Char(' '), Mods::control_only())), String::from("x"), None);
    assert_eq!(cmd, Command::Editor(SearchAction::Clear));
    let cmd = app.tick(Some((Key::Other, Mods::none())), String::from("x"), None);
    assert_eq!(cmd, Command::Editor(SearchAction::Input));
}

#[test]
fn an_overlong_query_stops_reaching_the_editor() {
    let mut app = App::new();
    let long = "a".repeat(101);
    let cmd = app.tick(Some((Key::Char('b'), Mods::none())), long, None);
    assert_eq!(cmd, Command::Editor(SearchAction::Ignore));
    let exact = "a".repeat(100);
    let cmd = app.tick(Some((Key::Char('b'), Mods::none())), exact, None);
    assert_eq!(cmd, Command::Editor(SearchAction::Input));
}

#[test]
fn the_spinner_runs_only_while_loading() {
    let mut app = App::new();
    app.tick(None, String::new(), None);
    assert_eq!(app.loader, Loader { tick: 0, steps: 0 });
    app.update_weather(String::from("q"));
    for _ in 0..6 {
        app.tick(None, String::new(), None);
    }
    assert_eq!(app.loader, Loader { tick: 6, steps: 1 });
}

#[test]
fn the_spinner_advances_every_sixth_tick() {
    let mut loader = Loader::new();
    for _ in 0..17 {
        loader.calc_next();
    }
    assert_eq!(loader, Loader { tick: 17, steps: 2 });
}

use weather_tui::error::WeatherError;
use weather_tui::location::{
    resolve_results, sanitize_input, select_coordinate, Coordinate, OSMResponse,
};

#[test]
fn sanitize_keeps_letters_digits_commas() {
    assert_eq!(sanitize_input("Boston, MA!"), "Boston,+MA");
    assert_eq!(sanitize_input("02134"), "02134");
}

#[test]
fn sanitize_trims_only_the_ends() {
    assert_eq!(sanitize_input("  New   York  "), "New+++York");
}

#[test]
fn sanitize_removes_everything_else() {
    assert_eq!(sanitize_input("h\u{e9}llo"), "hllo");
    assert_eq!(sanitize_input("!?#$%"), "");
    assert_eq!(sanitize_input(""), "");
    assert_eq!(sanitize_input("   "), "");
}

#[test]
fn resolving_no_results_is_a_resolution_failure() {
    let none: Vec<OSMResponse> = Vec::new();
    assert_eq!(resolve_results(&none), Err(WeatherError::ResolutionFailure));
}

#[test]
fn resolving_takes_the_first_name_and_every_coordinate() {
    let results = vec![
        OSMResponse {
            latitude: String::from("42.36"),
            longitude: String::from("-71.06"),
            name: String::from("Boston, MA, USA"),
        },
        OSMResponse {
            latitude: String::from("52.97"),
            longitude: String::from("-0.02"),
            name: String::from("Boston, Lincolnshire"),
        },
    ];
    let (name, coords) = resolve_results(&results).unwrap();
    assert_eq!(name, "Boston, MA, USA");
    assert_eq!(coords.len(), 2);
    assert_eq!(coords[0].latitude, "42.36");
    assert_eq!(coords[0].longitude, "-71.06");
    assert_eq!(coords[1].latitude, "52.97");
}

#[test]
fn selecting_a_coordinate_takes_the_first_pair() {
    let coords = vec![
        Coordinate { latitude: String::from("42.36"), longitude: String::from("-71.06") },
        Coordinate { latitude: String::from("52.97"), longitude: String::from("-0.02") },
    ];
    let c = select_coordinate(&coords).unwrap();
    assert_eq!(c.latitude, "42.36");
    assert_eq!(c.longitude, "-71.06");
    let none: Vec<Coordinate> = Vec::new();
    assert_eq!(select_coordinate(&none), Err(WeatherError::ResolutionFailure));
}

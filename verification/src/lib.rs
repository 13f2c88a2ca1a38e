//! Core logic of an interactive terminal weather dashboard.
//!
//! The library holds the verified heart of the application: the calendar
//! types that index a forecast, the forecast series and its alignment
//! invariant, the day-selection state machine, the projection of a series
//! onto one day's hours, and the session state machine that folds keyboard
//! input and background refresh results into one consistent state while
//! keeping at most one refresh task alive.  Terminal drawing and network
//! calls live outside the library and speak to it in plain values.

pub mod app;
pub mod daily_weather;
pub mod date;
pub mod error;
pub mod find;
pub mod loader;
pub mod location;
pub mod search;
pub mod weather;
pub mod weather_service;
pub mod weather_table;

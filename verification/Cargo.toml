[package]
name = "weather_tui"
version = "0.1.0"
edition = "2021"
publish = false

[dependencies]
chrono = "=0.4.45"
iana-time-zone = "=0.1.65"
ratatui = "=0.29.0"
reqwest = { version = "=0.13.5", default-features = false, features = ["json"] }
serde = { version = "=1.0.229", features = ["derive"] }
throbber-widgets-tui = "=0.8.0"
tokio = { version = "=1.53.2", features = ["rt-multi-thread", "macros", "sync", "time"] }
tui-textarea = "=0.7.0"

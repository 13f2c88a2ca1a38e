//! The session state machine: one state folded over keys and results.
//!
//! The session loop renders, polls for one key, advances the spinner,
//! polls for one delivered refresh result, and yields; all the decisions
//! of one such iteration live here as the [`App::tick`] transition.  The
//! loop around it only performs what the returned [`Command`] says.
//!
//! A refresh is owned by at most one live background task.  Tasks are
//! numbered; starting a refresh replaces the live number, and a
//! delivered result is folded in only when it carries the live number,
//! so a result of a canceled task can never alter the state.

use vstd::prelude::*;

use crate::daily_weather::{
    spec_on_new_series, spec_select_next, spec_select_previous, DailyWeather,
};
use crate::loader::{spec_calc_next, Loader};
use crate::search::{spec_search_key_action, search_key_action, Key, Mods, SearchAction};
use crate::weather::OpenMeteoHourly;
use crate::weather_service::WeatherData;
use vstd::string::StrSliceExecFns;

verus! {

/// What one key press asks of the session.
#[derive(Clone, Copy, Debug, PartialEq, Eq, Structural)]
pub enum KeyAction {
    /// Leave the loop after this iteration.
    Quit,
    /// Start a refresh for the current query text.
    Refresh,
    /// Highlight the next forecast day.
    SelectNext,
    /// Highlight the previous forecast day.
    SelectPrevious,
    /// Hand the press to the search box.
    Search,
}

/// What the loop around the state machine has to do after one step.
#[derive(Clone, Debug, PartialEq)]
pub enum Command {
    /// Nothing beyond the state change.
    Idle,
    /// Cancel the live background task, if any still runs, and spawn a
    /// new one under the given number for the given query.
    StartRefresh { task: u64, query: String },
    /// Apply the given action to the search editor.
    Editor(SearchAction),
}

/// Which action a key press asks for: control-c quits, enter or
/// control-r refreshes, tab and back-tab move the day selection, and
/// every other press belongs to the search box.
pub open spec fn spec_key_action(key: Key, mods: Mods) -> KeyAction {
    if mods.spec_only_control() && key == Key::Char('c') {
        KeyAction::Quit
    } else if key == Key::Enter {
        KeyAction::Refresh
    } else if mods.spec_only_control() && key == Key::Char('r') {
        KeyAction::Refresh
    } else if key == Key::Tab {
        KeyAction::SelectNext
    } else if key == Key::BackTab {
        KeyAction::SelectPrevious
    } else {
        KeyAction::Search
    }
}

/// Decides which action a key press asks for.
pub fn classify_key(key: Key, mods: Mods) -> (a: KeyAction)
    ensures
        a == spec_key_action(key, mods),
{
    let only_control = mods.only_control();
    match key {
        Key::Char(c) => {
            if only_control && c == 'c' {
                KeyAction::Quit
            } else if only_control && c == 'r' {
                KeyAction::Refresh
            } else {
                KeyAction::Search
            }
        },
        Key::Enter => KeyAction::Refresh,
        Key::Tab => KeyAction::SelectNext,
        Key::BackTab => KeyAction::SelectPrevious,
        Key::Other => KeyAction::Search,
    }
}

/// The whole session state: what is on screen and which background
/// task, if any, is allowed to replace it.
#[derive(Clone, Debug, PartialEq)]
pub struct App {
    /// The display name of the place the forecast is for.
    pub location_name: Option<String>,
    /// The hourly series of the current forecast.
    pub hourly: OpenMeteoHourly,
    /// The daily series of the current forecast and the selected day.
    pub daily: DailyWeather,
    /// The cosmetic spinner.
    pub loader: Loader,
    /// Whether a refresh is underway and nothing has arrived yet.
    pub loading: bool,
    /// Whether the loop leaves after this iteration.
    pub exit: bool,
    /// The number of the one live background task, if any was started.
    pub task: Option<u64>,
    /// The number the next started task will get; larger than every
    /// number handed out so far.
    pub next_task: u64,
}

impl App {
    /// The state invariant: both series are well formed, the selected
    /// day really occurs in the daily series (and is absent exactly
    /// when the series is empty), and the live task number, if any, has
    /// been handed out.
    pub open spec fn wf(self) -> bool {
        &&& self.hourly.wf()
        &&& self.daily.data.wf()
        &&& (self.daily.selected_date is None <==> self.daily.data.date@.len() == 0)
        &&& (self.daily.selected_date matches Some(d) ==> self.daily.data.date@.contains(d))
        &&& (self.task matches Some(t) ==> t < self.next_task)
    }

    /// A fresh session: nothing fetched, nothing selected, no task.
    pub fn new() -> (r: Self)
        ensures
            r.location_name is None,
            r.hourly.date_time@.len() == 0,
            r.daily.data.date@.len() == 0,
            r.daily.selected_date is None,
            r.loader == (Loader { tick: 0, steps: 0 }),
            !r.loading,
            !r.exit,
            r.task is None,
            r.next_task == 0,
            r.wf(),
    {
        App {
            location_name: None,
            hourly: OpenMeteoHourly::default(),
            daily: DailyWeather::new(),
            loader: Loader::new(),
            loading: false,
            exit: false,
            task: None,
            next_task: 0,
        }
    }
}

/// Starting a refresh: the loading flag goes up at once, the live task
/// number is replaced by a fresh one, and the loop is told to cancel
/// the old task and spawn the new one with the query as it reads now.
pub open spec fn spec_update_weather(app: App, query: String) -> (App, Command) {
    (
        App {
            loading: true,
            task: Some(app.next_task),
            next_task: (app.next_task + 1) as u64,
            ..app
        },
        Command::StartRefresh { task: app.next_task, query },
    )
}

/// One key press folded into the state.
pub open spec fn spec_handle_key(app: App, key: Key, mods: Mods, query: String) -> (App, Command) {
    match spec_key_action(key, mods) {
        KeyAction::Quit => (App { exit: true, ..app }, Command::Idle),
        KeyAction::Refresh => spec_update_weather(app, query),
        KeyAction::SelectNext => (
            App {
                daily: DailyWeather {
                    data: app.daily.data,
                    selected_date: spec_select_next(app.daily.data.date@, app.daily.selected_date),
                },
                ..app
            },
            Command::Idle,
        ),
        KeyAction::SelectPrevious => (
            App {
                daily: DailyWeather {
                    data: app.daily.data,
                    selected_date: spec_select_previous(
                        app.daily.data.date@,
                        app.daily.selected_date,
                    ),
                },
                ..app
            },
            Command::Idle,
        ),
        KeyAction::Search => (
            app,
            Command::Editor(spec_search_key_action(key, mods, query@.len())),
        ),
    }
}

/// The spinner advances only while a refresh is loading.
pub open spec fn spec_animate(app: App) -> App {
    if app.loading {
        App { loader: spec_calc_next(app.loader), ..app }
    } else {
        app
    }
}

/// One delivered result folded into the state: a result of the live
/// task replaces the forecast and the place name together, re-anchors
/// the day selection, ends the loading state and rests the spinner; a
/// result of any other task changes nothing at all.
pub open spec fn spec_apply_result(app: App, task: u64, wd: WeatherData) -> App {
    if app.task == Some(task) {
        App {
            location_name: Some(wd.location_name),
            hourly: wd.weather.hourly,
            daily: DailyWeather {
                data: wd.weather.daily,
                selected_date: spec_on_new_series(
                    app.daily.selected_date,
                    wd.weather.daily.date@,
                ),
            },
            loader: Loader { tick: 0, steps: 0 },
            loading: false,
            ..app
        }
    } else {
        app
    }
}

/// One whole loop iteration folded into the state, in the loop's order:
/// first the key, then the spinner, then the delivered result.
pub open spec fn spec_tick(
    app: App,
    key: Option<(Key, Mods)>,
    query: String,
    delivery: Option<(u64, WeatherData)>,
) -> (App, Command) {
    let step1 = match key {
        Some(km) => spec_handle_key(app, km.0, km.1, query),
        None => (app, Command::Idle),
    };
    let step2 = spec_animate(step1.0);
    let step3 = match delivery {
        Some(d) => spec_apply_result(step2, d.0, d.1),
        None => step2,
    };
    (step3, step1.1)
}

impl App {
    /// Starts a refresh for `query`: raises the loading flag before any
    /// network work, hands out a fresh task number as the only live
    /// one, and orders the old task canceled and the new one spawned.
    /// The fresh number differs from every number handed out before, so
    /// the canceled task can no longer be the live one.
    pub fn update_weather(&mut self, query: String) -> (cmd: Command)
        requires
            old(self).wf(),
            old(self).next_task < u64::MAX,
        ensures
            final(self).wf(),
            (*final(self), cmd) == spec_update_weather(*old(self), query),
            final(self).task == Some(old(self).next_task),
            old(self).task matches Some(t) ==> t != old(self).next_task,
    {
        self.loading = true;
        let id = self.next_task;
        self.next_task = self.next_task + 1;
        self.task = Some(id);
        Command::StartRefresh { task: id, query }
    }

    /// Folds one key press into the state and reports what the loop has
    /// to do for it.
    pub fn handle_key_event(&mut self, key: Key, mods: Mods, query: String) -> (cmd: Command)
        requires
            old(self).wf(),
            old(self).next_task < u64::MAX,
        ensures
            final(self).wf(),
            (*final(self), cmd) == spec_handle_key(*old(self), key, mods, query),
    {
        match classify_key(key, mods) {
            KeyAction::Quit => {
                self.exit = true;
                Command::Idle
            },
            KeyAction::Refresh => self.update_weather(query),
            KeyAction::SelectNext => {
                if self.daily.data.date.len() > 0 {
                    self.daily.select_next();
                }
                Command::Idle
            },
            KeyAction::SelectPrevious => {
                if self.daily.data.date.len() > 0 {
                    self.daily.select_previous();
                }
                Command::Idle
            },
            KeyAction::Search => {
                let len = query.as_str().unicode_len();
                Command::Editor(search_key_action(key, mods, len))
            },
        }
    }

    /// Folds one delivered refresh result into the state.  Only a
    /// result carrying the live task number replaces anything; a result
    /// of a canceled or unknown task leaves the state untouched.
    pub fn update_state(&mut self, weather_data: WeatherData, task: u64)
        requires
            old(self).wf(),
            weather_data.wf(),
        ensures
            final(self).wf(),
            *final(self) == spec_apply_result(*old(self), task, weather_data),
            old(self).task != Some(task) ==> *final(self) == *old(self),
    {
        let matches_live = match self.task {
            Some(t) => t == task,
            None => false,
        };
        if matches_live {
            let WeatherData { weather, location_name } = weather_data;
            let crate::weather::OpenMeteoResponse { hourly, daily } = weather;
            self.daily.data(daily);
            self.hourly = hourly;
            self.location_name = Some(location_name);
            self.loading = false;
            self.loader = Loader::new();
        }
    }

    /// One whole loop iteration: folds in at most one key press and at
    /// most one delivered result, advances the spinner while loading,
    /// and reports what the loop has to do.  The key comes first, so a
    /// refresh a key starts can never be answered by a result consumed
    /// in the same iteration.
    pub fn tick(
        &mut self,
        key: Option<(Key, Mods)>,
        query: String,
        delivery: Option<(u64, WeatherData)>,
    ) -> (cmd: Command)
        requires
            old(self).wf(),
            old(self).next_task < u64::MAX,
            delivery matches Some(d) ==> d.1.wf(),
        ensures
            final(self).wf(),
            (*final(self), cmd) == spec_tick(*old(self), key, query, delivery),
    {
        let cmd = match key {
            Some((k, m)) => self.handle_key_event(k, m, query),
            None => Command::Idle,
        };
        if self.loading {
            self.loader.calc_next();
        }
        match delivery {
            Some((task, wd)) => self.update_state(wd, task),
            None => {},
        }
        cmd
    }
}

} // verus!

//! The day-selection state machine of the daily forecast panel.
//!
//! The panel holds the daily series and the day currently highlighted.
//! Selection moves cyclically: one step past the last day wraps to the
//! first and one step before the first wraps to the last.  When a new
//! series arrives the selection is kept if its day still occurs, falls
//! back to the first day otherwise, and is cleared only by an empty
//! series.  The laws at the end pin the cycle down: walking once around
//! a series returns to the start, and one step back undoes one step
//! forward.

use vstd::prelude::*;

use crate::date::Date;
use crate::find::{lemma_spec_find_at, spec_find};
use crate::weather::{find_date, OpenMeteoDaily};

verus! {

/// The daily panel: its series and the day currently highlighted.
#[derive(Clone, Debug, PartialEq)]
pub struct DailyWeather {
    pub data: OpenMeteoDaily,
    pub selected_date: Option<Date>,
}

/// The index the selection stands on: the first occurrence of the
/// selected day, or the front when nothing is selected or the day is
/// not in the series.
pub open spec fn spec_sel_index(dates: Seq<Date>, sel: Option<Date>) -> int {
    match sel {
        Some(d) => {
            let f = spec_find(dates, d);
            if f == -1 {
                0
            } else {
                f
            }
        },
        None => 0,
    }
}

/// One selection step forward: to the next day, wrapping past the last
/// day to the first.  An empty series leaves the selection alone.
pub open spec fn spec_select_next(dates: Seq<Date>, sel: Option<Date>) -> Option<Date> {
    if dates.len() == 0 {
        sel
    } else {
        let i = spec_sel_index(dates, sel);
        let n = if i + 1 == dates.len() {
            0
        } else {
            i + 1
        };
        Some(dates[n])
    }
}

/// One selection step backward: to the previous day, wrapping past the
/// first day to the last.  An empty series leaves the selection alone.
pub open spec fn spec_select_previous(dates: Seq<Date>, sel: Option<Date>) -> Option<Date> {
    if dates.len() == 0 {
        sel
    } else {
        let i = spec_sel_index(dates, sel);
        let p = if i == 0 {
            dates.len() - 1
        } else {
            i - 1
        };
        Some(dates[p])
    }
}

/// What a new series does to the selection: an empty series clears it,
/// a series that still holds the selected day keeps it, and any other
/// series resets it to its first day.
pub open spec fn spec_on_new_series(sel: Option<Date>, dates: Seq<Date>) -> Option<Date> {
    if dates.len() == 0 {
        None
    } else {
        match sel {
            Some(d) => {
                if dates.contains(d) {
                    Some(d)
                } else {
                    Some(dates[0])
                }
            },
            None => Some(dates[0]),
        }
    }
}

/// No day occurs twice in the sequence.
pub open spec fn spec_dates_distinct(dates: Seq<Date>) -> bool {
    forall|i: int, j: int| 0 <= i < j < dates.len() ==> dates[i] != dates[j]
}

/// A well-formed daily series has distinct dates: its dates strictly
/// increase, and the ordering key tells distinct valid days apart.
pub proof fn lemma_wf_dates_distinct(daily: OpenMeteoDaily)
    requires
        daily.wf(),
    ensures
        spec_dates_distinct(daily.date@),
{
    assert forall|i: int, j: int|
        0 <= i < j < daily.date@.len() implies daily.date@[i] != daily.date@[j] by {
        assert(daily.date@[i].key() < daily.date@[j].key());
    }
}

impl DailyWeather {
    /// The empty panel: no series, nothing selected.
    pub fn new() -> (r: Self)
        ensures
            r.data.date@.len() == 0,
            r.data.wf(),
            r.selected_date is None,
    {
        DailyWeather { data: OpenMeteoDaily::default(), selected_date: None }
    }

    /// Installs a freshly arrived series, keeping the selection when its
    /// day still occurs, resetting it to the first day otherwise, and
    /// clearing it only for an empty series.
    pub fn data(&mut self, data: OpenMeteoDaily)
        ensures
            final(self).data == data,
            final(self).selected_date == spec_on_new_series(old(self).selected_date, data.date@),
            final(self).selected_date is None <==> data.date@.len() == 0,
            final(self).selected_date matches Some(d) ==> data.date@.contains(d),
    {
        if data.date.len() == 0 {
            self.selected_date = None;
        } else {
            let keep = match self.selected_date {
                Some(d) => {
                    match find_date(&data.date, d) {
                        Some(i) => {
                            proof {
                                assert(data.date@.contains(d)) by {
                                    assert(data.date@[i as int] == d);
                                }
                            }
                            true
                        },
                        None => {
                            proof {
                                assert(!data.date@.contains(d));
                            }
                            false
                        },
                    }
                },
                None => false,
            };
            if !keep {
                self.selected_date = Some(data.date[0]);
                proof {
                    assert(data.date@.contains(data.date@[0]));
                }
            }
        }
        self.data = data;
    }

    /// Moves the selection one day forward, cyclically.
    pub fn select_next(&mut self)
        requires
            old(self).data.date@.len() > 0,
        ensures
            final(self).data == old(self).data,
            final(self).selected_date == spec_select_next(
                old(self).data.date@,
                old(self).selected_date,
            ),
            final(self).selected_date matches Some(d) ==> old(self).data.date@.contains(d),
    {
        let n = self.data.date.len();
        let idx: usize = match self.selected_date {
            Some(d) => {
                match find_date(&self.data.date, d) {
                    Some(i) => i,
                    None => 0,
                }
            },
            None => 0,
        };
        let next = idx + 1;
        let index = if next == n {
            0
        } else {
            next
        };
        self.selected_date = Some(self.data.date[index]);
    }

    /// Moves the selection one day backward, cyclically.
    pub fn select_previous(&mut self)
        requires
            old(self).data.date@.len() > 0,
        ensures
            final(self).data == old(self).data,
            final(self).selected_date == spec_select_previous(
                old(self).data.date@,
                old(self).selected_date,
            ),
            final(self).selected_date matches Some(d) ==> old(self).data.date@.contains(d),
    {
        let idx: usize = match self.selected_date {
            Some(d) => {
                match find_date(&self.data.date, d) {
                    Some(i) => i,
                    None => 0,
                }
            },
            None => 0,
        };
        let index = if idx == 0 {
            self.data.date.len() - 1
        } else {
            idx - 1
        };
        self.selected_date = Some(self.data.date[index]);
    }

    /// The day currently highlighted, if any.
    pub fn selected(self) -> (r: Option<Date>)
        ensures
            r == self.selected_date,
    {
        self.selected_date
    }
}

impl Default for DailyWeather {
    /// The empty panel: no series, nothing selected.
    fn default() -> (r: Self)
        ensures
            r.data.date@.len() == 0,
            r.data.wf(),
            r.selected_date is None,
    {
        DailyWeather::new()
    }
}

/// The ordinal suffix a day of month is written with: 1st, 2nd, 3rd,
/// 4th and so on, with 11th, 12th and 13th as the exceptions.
pub open spec fn spec_day_suffix(day: u8) -> Seq<char> {
    if day == 11 || day == 12 || day == 13 {
        "th"@
    } else if day % 10 == 1 {
        "st"@
    } else if day % 10 == 2 {
        "nd"@
    } else if day % 10 == 3 {
        "rd"@
    } else {
        "th"@
    }
}

/// Returns the ordinal suffix a day of month is written with.
pub fn day_suffix(day: u8) -> (r: &'static str)
    ensures
        r@ == spec_day_suffix(day),
{
    if day == 11 || day == 12 || day == 13 {
        "th"
    } else if day % 10 == 1 {
        "st"
    } else if day % 10 == 2 {
        "nd"
    } else if day % 10 == 3 {
        "rd"
    } else {
        "th"
    }
}

/// Walking the selection `n` steps forward, one day at a time.
pub open spec fn spec_iterate_next(dates: Seq<Date>, sel: Option<Date>, n: nat) -> Option<Date>
    decreases n,
{
    if n == 0 {
        sel
    } else {
        spec_select_next(dates, spec_iterate_next(dates, sel, (n - 1) as nat))
    }
}

/// From a day of the series, one step forward lands on the following
/// day, wrapping at the end.
proof fn lemma_next_from_index(dates: Seq<Date>, i: int)
    requires
        spec_dates_distinct(dates),
        0 <= i < dates.len(),
    ensures
        spec_select_next(dates, Some(dates[i])) == Some(
            dates[
                if i + 1 == dates.len() {
                    0
                } else {
                    i + 1
                }
            ],
        ),
{
    lemma_spec_find_at(dates, dates[i], i);
}

/// Walking `n` steps forward from position `i` lands `n` places further
/// around the cycle, wrapping at most once while `n` stays within one
/// lap.
proof fn lemma_iterate_next_wrap(dates: Seq<Date>, i: int, n: nat)
    requires
        spec_dates_distinct(dates),
        0 <= i < dates.len(),
        n <= dates.len(),
    ensures
        spec_iterate_next(dates, Some(dates[i]), n) == Some(
            dates[
                if i + n < dates.len() {
                    i + n
                } else {
                    i + n - dates.len()
                }
            ],
        ),
    decreases n,
{
    if n > 0 {
        lemma_iterate_next_wrap(dates, i, (n - 1) as nat);
        let j = if i + n - 1 < dates.len() {
            i + n - 1
        } else {
            i + n - 1 - dates.len()
        };
        lemma_next_from_index(dates, j);
    }
}

/// Cyclic closure: on a series of distinct days, walking the selection
/// forward exactly once per day of the series returns it to where it
/// started.
pub proof fn lemma_select_next_cycle(dates: Seq<Date>, sel: Date)
    requires
        dates.len() > 0,
        spec_dates_distinct(dates),
        dates.contains(sel),
    ensures
        spec_iterate_next(dates, Some(sel), dates.len() as nat) == Some(sel),
{
    let i = choose|i: int| 0 <= i < dates.len() && dates[i] == sel;
    lemma_iterate_next_wrap(dates, i, dates.len() as nat);
}

/// One step back undoes one step forward: on a series of distinct days,
/// stepping the selection forward and then backward restores it.
pub proof fn lemma_select_previous_inverts_next(dates: Seq<Date>, sel: Date)
    requires
        dates.len() > 0,
        spec_dates_distinct(dates),
        dates.contains(sel),
    ensures
        spec_select_previous(dates, spec_select_next(dates, Some(sel))) == Some(sel),
{
    let i = choose|i: int| 0 <= i < dates.len() && dates[i] == sel;
    lemma_next_from_index(dates, i);
    let ni: int = if i + 1 == dates.len() {
        0
    } else {
        i + 1
    };
    lemma_spec_find_at(dates, dates[ni], ni);
}

} // verus!

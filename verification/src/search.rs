//! Keyboard input, reduced to plain values, and the search box's rules.
//!
//! The terminal hands the application raw key events; the session logic
//! only distinguishes a handful of keys and the modifier state, so a key
//! press is reduced to a [`Key`] and [`Mods`] pair.  The search box
//! itself is an unverified editor widget; what the library decides is
//! which presses it receives, which clear it, and that its text stays
//! bounded.

use vstd::prelude::*;

verus! {

/// One keyboard key, reduced to what the dashboard distinguishes.
/// Every key the session logic does not name maps to `Other`.
#[derive(Clone, Copy, Debug, PartialEq, Eq, Structural)]
pub enum Key {
    Char(char),
    Enter,
    Tab,
    BackTab,
    Other,
}

/// The modifier state of a key press; `other` covers any modifier
/// beyond control, shift and alt.
#[derive(Clone, Copy, Debug, PartialEq, Eq, Structural)]
pub struct Mods {
    pub control: bool,
    pub shift: bool,
    pub alt: bool,
    pub other: bool,
}

impl Mods {
    /// Exactly the control modifier is held, nothing else.
    pub open spec fn spec_only_control(self) -> bool {
        self.control && !self.shift && !self.alt && !self.other
    }

    /// Tests whether exactly the control modifier is held.
    pub fn only_control(&self) -> (b: bool)
        ensures
            b == self.spec_only_control(),
    {
        self.control && !self.shift && !self.alt && !self.other
    }

    /// No modifier at all.
    pub fn none() -> (r: Self)
        ensures
            r == (Mods { control: false, shift: false, alt: false, other: false }),
    {
        Mods { control: false, shift: false, alt: false, other: false }
    }

    /// Exactly the control modifier.
    pub fn control_only() -> (r: Self)
        ensures
            r == (Mods { control: true, shift: false, alt: false, other: false }),
    {
        Mods { control: true, shift: false, alt: false, other: false }
    }
}

/// What the search box does with one key press.
#[derive(Clone, Copy, Debug, PartialEq, Eq, Structural)]
pub enum SearchAction {
    /// Empty the query text.
    Clear,
    /// Swallow the press.
    Ignore,
    /// Hand the press to the editor widget.
    Input,
}

/// The longest query text, in characters, that the search box still
/// lets the editor grow.
pub const QUERY_LIMIT: usize = 100;

/// The search box's decision for a key press, given how long its text
/// currently is: control-space and `/` clear the text, enter is
/// swallowed, and anything else reaches the editor only while the text
/// has not outgrown the limit.
pub open spec fn spec_search_key_action(key: Key, mods: Mods, len: nat) -> SearchAction {
    if (key == Key::Char(' ') && mods.spec_only_control()) || key == Key::Char('/') {
        SearchAction::Clear
    } else if key == Key::Enter {
        SearchAction::Ignore
    } else if len <= QUERY_LIMIT {
        SearchAction::Input
    } else {
        SearchAction::Ignore
    }
}

/// Decides what the search box does with one key press.
pub fn search_key_action(key: Key, mods: Mods, len: usize) -> (a: SearchAction)
    ensures
        a == spec_search_key_action(key, mods, len as nat),
{
    match key {
        Key::Char(c) => {
            if (c == ' ' && mods.only_control()) || c == '/' {
                SearchAction::Clear
            } else if len <= QUERY_LIMIT {
                SearchAction::Input
            } else {
                SearchAction::Ignore
            }
        },
        Key::Enter => SearchAction::Ignore,
        _ => {
            if len <= QUERY_LIMIT {
                SearchAction::Input
            } else {
                SearchAction::Ignore
            }
        },
    }
}

} // verus!

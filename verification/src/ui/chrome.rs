//! The tabs of the main window.
use vstd::prelude::*;

use crate::text;

verus! {

/// A screen of the main window.
#[derive(Clone, Copy, Debug, PartialEq, Eq, Structural)]
pub enum Tab {
    Today,
    Insights,
    TaskTypes,
}

/// The string that stands for a tab in the settings file.
pub open spec fn tab_text(t: Tab) -> Seq<char> {
    match t {
        Tab::Today => "today"@,
        Tab::Insights => "insights"@,
        Tab::TaskTypes => "types"@,
    }
}

/// The tab a string stands for; one that stands for none falls back to `Today`.
pub open spec fn tab_of(s: Seq<char>) -> Tab {
    if s == "insights"@ {
        Tab::Insights
    } else if s == "types"@ {
        Tab::TaskTypes
    } else {
        Tab::Today
    }
}

impl Tab {
    /// The string that stands for the tab in the settings file.
    pub fn as_str(self) -> (r: &'static str)
        ensures
            r@ == tab_text(self),
    {
        match self {
            Tab::Today => "today",
            Tab::Insights => "insights",
            Tab::TaskTypes => "types",
        }
    }

    /// The tab a string stands for. An unknown string (a hand-edited or older settings file)
    /// falls back to `Today` rather than failing to load.
    pub fn from_str(s: &str) -> (r: Tab)
        ensures
            r == tab_of(s@),
    {
        if text::same_text(s, "insights") {
            Tab::Insights
        } else if text::same_text(s, "types") {
            Tab::TaskTypes
        } else {
            Tab::Today
        }
    }
}

/// Every tab is found again under the string that stands for it.
pub proof fn law_tab_round_trips(t: Tab)
    ensures
        tab_of(tab_text(t)) == t,
{
    reveal_strlit("today");
    reveal_strlit("insights");
    reveal_strlit("types");
    assert("insights"@[0] != "types"@[0]);
    assert("today"@.len() != "insights"@.len());
    assert("today"@[1] != "types"@[1]);
}

/// The settings file has one word for each tab, and any other text means the Today screen.
pub proof fn law_tabs_are_written_as_words(s: Seq<char>)
    ensures
        tab_text(Tab::Today) == "today"@,
        tab_text(Tab::Insights) == "insights"@,
        tab_text(Tab::TaskTypes) == "types"@,
        s != "insights"@ && s != "types"@ ==> tab_of(s) == Tab::Today,
{
}

} // verus!

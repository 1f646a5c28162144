//! The application's tab bar: which screen is selected.

use vstd::prelude::*;
use vstd::string::StringExecFns;

verus! {

/// One of the application's four screens.
#[derive(Clone, Copy, Debug, PartialEq, Eq, Structural)]
pub enum SanupTabs {
    Settings,
    Main,
    Processes,
    Backups,
}

/// The tab selected after moving one step right, wrapping at the end.
pub open spec fn spec_tabs_next(t: SanupTabs) -> SanupTabs {
    match t {
        SanupTabs::Settings => SanupTabs::Main,
        SanupTabs::Main => SanupTabs::Processes,
        SanupTabs::Processes => SanupTabs::Backups,
        SanupTabs::Backups => SanupTabs::Settings,
    }
}

/// The tab selected after moving one step left, wrapping at the start.
pub open spec fn spec_tabs_prev(t: SanupTabs) -> SanupTabs {
    match t {
        SanupTabs::Settings => SanupTabs::Backups,
        SanupTabs::Main => SanupTabs::Settings,
        SanupTabs::Processes => SanupTabs::Main,
        SanupTabs::Backups => SanupTabs::Processes,
    }
}

/// The display label of a tab.
pub open spec fn spec_tabs_label(t: SanupTabs) -> Seq<char> {
    match t {
        SanupTabs::Settings => "Settings"@,
        SanupTabs::Main => "Main"@,
        SanupTabs::Processes => "Processes"@,
        SanupTabs::Backups => "Backups"@,
    }
}

impl SanupTabs {
    /// The display labels of all tabs, in bar order.
    pub fn into_vec_str() -> (r: Vec<String>)
        ensures
            r@.map_values(|s: String| s@) == seq![
                "Settings"@,
                "Main"@,
                "Processes"@,
                "Backups"@,
            ],
    {
        let mut v: Vec<String> = Vec::new();
        v.push(String::from_str("Settings"));
        v.push(String::from_str("Main"));
        v.push(String::from_str("Processes"));
        v.push(String::from_str("Backups"));
        proof {
            assert(v@.map_values(|s: String| s@) =~= seq![
                "Settings"@,
                "Main"@,
                "Processes"@,
                "Backups"@,
            ]);
        }
        v
    }

    /// The tab's position in the bar.
    pub fn into_idx(&self) -> (r: usize)
        ensures
            r == match *self {
                SanupTabs::Settings => 0usize,
                SanupTabs::Main => 1usize,
                SanupTabs::Processes => 2usize,
                SanupTabs::Backups => 3usize,
            },
    {
        match self {
            Self::Settings => 0,
            Self::Main => 1,
            Self::Processes => 2,
            Self::Backups => 3,
        }
    }

    /// Moves one tab right, wrapping at the end.
    pub fn next(&mut self)
        ensures
            *final(self) == spec_tabs_next(*old(self)),
    {
        match self {
            Self::Settings => *self = Self::Main,
            Self::Main => *self = Self::Processes,
            Self::Processes => *self = Self::Backups,
            Self::Backups => *self = Self::Settings,
        }
    }

    /// Moves one tab left, wrapping at the start.
    pub fn prev(&mut self)
        ensures
            *final(self) == spec_tabs_prev(*old(self)),
    {
        match self {
            Self::Settings => *self = Self::Backups,
            Self::Main => *self = Self::Settings,
            Self::Processes => *self = Self::Main,
            Self::Backups => *self = Self::Processes,
        }
    }

    /// Whether the settings tab is selected.
    pub fn is_settings(&self) -> (r: bool)
        ensures
            r == (*self == SanupTabs::Settings),
    {
        *self == Self::Settings
    }

    /// Whether the main tab is selected.
    pub fn is_main(&self) -> (r: bool)
        ensures
            r == (*self == SanupTabs::Main),
    {
        *self == Self::Main
    }

    /// Whether the processes tab is selected.
    pub fn is_processes(&self) -> (r: bool)
        ensures
            r == (*self == SanupTabs::Processes),
    {
        *self == Self::Processes
    }

    /// Whether the backups tab is selected.
    pub fn is_backups(&self) -> (r: bool)
        ensures
            r == (*self == SanupTabs::Backups),
    {
        *self == Self::Backups
    }

    /// The tab's display label.
    pub fn to_string(&self) -> (r: String)
        ensures
            r@ == spec_tabs_label(*self),
    {
        match self {
            Self::Settings => String::from_str("Settings"),
            Self::Main => String::from_str("Main"),
            Self::Processes => String::from_str("Processes"),
            Self::Backups => String::from_str("Backups"),
        }
    }
}

} // verus!

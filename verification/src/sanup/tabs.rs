//! The tab bar (earlier generation): note its own bar order and cycle.

use vstd::prelude::*;
use vstd::string::StringExecFns;

verus! {

/// One of the application's four screens.
#[derive(Clone, Copy, Debug, PartialEq, Eq, Structural)]
pub enum SanupTabs {
    Settings,
    Main,
    Processes,
    Backups,
}

/// The tab selected after moving one step forward along the cycle
/// Settings, Main, Backups, Processes.
pub open spec fn spec_tabs_next(t: SanupTabs) -> SanupTabs {
    match t {
        SanupTabs::Settings => SanupTabs::Main,
        SanupTabs::Main => SanupTabs::Backups,
        SanupTabs::Processes => SanupTabs::Settings,
        SanupTabs::Backups => SanupTabs::Processes,
    }
}

/// The tab selected after moving one step backward along the same cycle.
pub open spec fn spec_tabs_prev(t: SanupTabs) -> SanupTabs {
    match t {
        SanupTabs::Settings => SanupTabs::Processes,
        SanupTabs::Main => SanupTabs::Settings,
        SanupTabs::Processes => SanupTabs::Backups,
        SanupTabs::Backups => SanupTabs::Main,
    }
}

impl SanupTabs {
    /// The display labels of all tabs, in declaration order.
    pub fn into_vec_str() -> (r: Vec<String>)
        ensures
            r@.map_values(|s: String| s@) == seq![
                "Settings"@,
                "Main"@,
                "Processes"@,
                "Backups"@,
            ],
    {
        let mut v: Vec<String> = Vec::new();
        v.push(String::from_str("Settings"));
        v.push(String::from_str("Main"));
        v.push(String::from_str("Processes"));
        v.push(String::from_str("Backups"));
        proof {
            assert(v@.map_values(|s: String| s@) =~= seq![
                "Settings"@,
                "Main"@,
                "Processes"@,
                "Backups"@,
            ]);
        }
        v
    }

    /// The tab's position in the bar.
    pub fn into_idx(&self) -> (r: usize)
        ensures
            r == match *self {
                SanupTabs::Settings => 0usize,
                SanupTabs::Main => 1usize,
                SanupTabs::Processes => 3usize,
                SanupTabs::Backups => 2usize,
            },
    {
        match self {
            Self::Settings => 0,
            Self::Main => 1,
            Self::Processes => 3,
            Self::Backups => 2,
        }
    }

    /// Moves one step forward along the cycle.
    pub fn next(&mut self)
        ensures
            *final(self) == spec_tabs_next(*old(self)),
    {
        match self {
            Self::Settings => *self = Self::Main,
            Self::Main => *self = Self::Backups,
            Self::Processes => *self = Self::Settings,
            Self::Backups => *self = Self::Processes,
        }
    }

    /// Moves one step backward along the cycle.
    pub fn prev(&mut self)
        ensures
            *final(self) == spec_tabs_prev(*old(self)),
    {
        match self {
            Self::Settings => *self = Self::Processes,
            Self::Main => *self = Self::Settings,
            Self::Processes => *self = Self::Backups,
            Self::Backups => *self = Self::Main,
        }
    }

    /// The tab's display label.
    pub fn to_string(&self) -> (r: String)
        ensures
            r@ == match *self {
                SanupTabs::Settings => "Settings"@,
                SanupTabs::Main => "Main"@,
                SanupTabs::Processes => "Processes"@,
                SanupTabs::Backups => "Backups"@,
            },
    {
        match self {
            Self::Settings => String::from_str("Settings"),
            Self::Main => String::from_str("Main"),
            Self::Processes => String::from_str("Processes"),
            Self::Backups => String::from_str("Backups"),
        }
    }
}

} // verus!

//! Which screen the application shows (earlier generation).

use vstd::prelude::*;
use vstd::string::StringExecFns;

verus! {

/// One of the application's four screens.
#[derive(Clone, Copy, Debug, PartialEq, Eq, Structural)]
pub enum SanupState {
    Settings,
    Main,
    Backups,
    Processes,
}

/// The screen after moving one step forward, wrapping at the end.
pub open spec fn spec_state_next(t: SanupState) -> SanupState {
    match t {
        SanupState::Settings => SanupState::Main,
        SanupState::Main => SanupState::Backups,
        SanupState::Backups => SanupState::Processes,
        SanupState::Processes => SanupState::Settings,
    }
}

/// The screen after moving one step backward, wrapping at the start.
pub open spec fn spec_state_prev(t: SanupState) -> SanupState {
    match t {
        SanupState::Settings => SanupState::Processes,
        SanupState::Main => SanupState::Settings,
        SanupState::Backups => SanupState::Main,
        SanupState::Processes => SanupState::Backups,
    }
}

impl SanupState {
    /// The display labels of all screens, in order.
    pub fn into_vec_str() -> (r: Vec<String>)
        ensures
            r@.map_values(|s: String| s@) == seq![
                "Settings"@,
                "Main"@,
                "Backups"@,
                "Processes"@,
            ],
    {
        let mut v: Vec<String> = Vec::new();
        v.push(String::from_str("Settings"));
        v.push(String::from_str("Main"));
        v.push(String::from_str("Backups"));
        v.push(String::from_str("Processes"));
        proof {
            assert(v@.map_values(|s: String| s@) =~= seq![
                "Settings"@,
                "Main"@,
                "Backups"@,
                "Processes"@,
            ]);
        }
        v
    }

    /// The screen's position.
    pub fn into_idx(&self) -> (r: usize)
        ensures
            r == match *self {
                SanupState::Settings => 0usize,
                SanupState::Main => 1usize,
                SanupState::Backups => 2usize,
                SanupState::Processes => 3usize,
            },
    {
        match self {
            Self::Settings => 0,
            Self::Main => 1,
            Self::Backups => 2,
            Self::Processes => 3,
        }
    }

    /// Moves one screen forward, wrapping at the end.
    pub fn next(&mut self)
        ensures
            *final(self) == spec_state_next(*old(self)),
    {
        match self {
            Self::Settings => *self = Self::Main,
            Self::Main => *self = Self::Backups,
            Self::Backups => *self = Self::Processes,
            Self::Processes => *self = Self::Settings,
        }
    }

    /// Moves one screen backward, wrapping at the start.
    pub fn prev(&mut self)
        ensures
            *final(self) == spec_state_prev(*old(self)),
    {
        match self {
            Self::Settings => *self = Self::Processes,
            Self::Main => *self = Self::Settings,
            Self::Backups => *self = Self::Main,
            Self::Processes => *self = Self::Backups,
        }
    }

    /// The screen's display label.
    pub fn to_string(&self) -> (r: String)
        ensures
            r@ == match *self {
                SanupState::Settings => "Settings"@,
                SanupState::Main => "Main"@,
                SanupState::Backups => "Backups"@,
                SanupState::Processes => "Processes"@,
            },
    {
        match self {
            Self::Settings => String::from_str("Settings"),
            Self::Main => String::from_str("Main"),
            Self::Backups => String::from_str("Backups"),
            Self::Processes => String::from_str("Processes"),
        }
    }
}

} // verus!

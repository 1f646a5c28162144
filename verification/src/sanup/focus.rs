//! Which part of the application receives keyboard input (earlier
//! generation, without focus queries).

use vstd::prelude::*;
use vstd::string::StringExecFns;

verus! {

/// The application-level focus target.
#[derive(Clone, Copy, Debug, PartialEq, Eq, Structural)]
pub enum SanupFocus {
    /// The tab bar.
    Tabs,
    /// The body of the selected tab.
    Body,
    /// The input form overlay.
    InputForm,
}

impl SanupFocus {
    /// The focus target's index.
    pub fn into_idx(&self) -> (r: usize)
        ensures
            r == 0,
    {
        match self {
            Self::Tabs => 0,
            Self::Body => 0,
            Self::InputForm => 0,
        }
    }

    /// Moves focus to the tab bar.
    pub fn to_tabs(&mut self)
        ensures
            *final(self) == SanupFocus::Tabs,
    {
        *self = Self::Tabs;
    }

    /// Moves focus to the body.
    pub fn to_body(&mut self)
        ensures
            *final(self) == SanupFocus::Body,
    {
        *self = Self::Body;
    }

    /// Moves focus to the input form.
    pub fn to_inputform(&mut self)
        ensures
            *final(self) == SanupFocus::InputForm,
    {
        *self = Self::InputForm;
    }

    /// The focus target's display label.
    pub fn to_string(&self) -> (r: String)
        ensures
            r@ == match *self {
                SanupFocus::Tabs => "Tabs"@,
                SanupFocus::Body => "Body"@,
                SanupFocus::InputForm => "InputForm"@,
            },
    {
        match self {
            Self::Tabs => String::from_str("Tabs"),
            Self::Body => String::from_str("Body"),
            Self::InputForm => String::from_str("InputForm"),
        }
    }
}

} // verus!

//! Which part of the application currently receives keyboard input.

use vstd::prelude::*;
use vstd::string::StringExecFns;

verus! {

/// The application-level focus target.
#[derive(Clone, Copy, Debug, PartialEq, Eq, Structural)]
pub enum SanupFocus {
    /// The tab bar.
    Tabs,
    /// The body of the selected tab.
    Body,
    /// The input form overlay.
    InputForm,
}

impl SanupFocus {
    /// The focus target's index.
    pub fn into_idx(&self) -> (r: usize)
        ensures
            r == 0,
    {
        match self {
            Self::Tabs => 0,
            Self::Body => 0,
            Self::InputForm => 0,
        }
    }

    /// Whether the tab bar has focus.
    pub fn is_tabs(&self) -> (r: bool)
        ensures
            r == (*self == SanupFocus::Tabs),
    {
        *self == Self::Tabs
    }

    /// Whether the body has focus.
    pub fn is_body(&self) -> (r: bool)
        ensures
            r == (*self == SanupFocus::Body),
    {
        *self == Self::Body
    }

    /// Whether the input form has focus.
    pub fn is_inputform(&self) -> (r: bool)
        ensures
            r == (*self == SanupFocus::InputForm),
    {
        *self == Self::InputForm
    }

    /// Moves focus to the tab bar.
    pub fn to_tabs(&mut self)
        ensures
            *final(self) == SanupFocus::Tabs,
    {
        *self = Self::Tabs;
    }

    /// Moves focus to the body.
    pub fn to_body(&mut self)
        ensures
            *final(self) == SanupFocus::Body,
    {
        *self = Self::Body;
    }

    /// Moves focus to the input form.
    pub fn to_inputform(&mut self)
        ensures
            *final(self) == SanupFocus::InputForm,
    {
        *self = Self::InputForm;
    }

    /// The focus target's display label.
    pub fn to_string(&self) -> (r: String)
        ensures
            r@ == match *self {
                SanupFocus::Tabs => "Tabs"@,
                SanupFocus::Body => "Body"@,
                SanupFocus::InputForm => "InputForm"@,
            },
    {
        match self {
            Self::Tabs => String::from_str("Tabs"),
            Self::Body => String::from_str("Body"),
            Self::InputForm => String::from_str("InputForm"),
        }
    }
}

} // verus!

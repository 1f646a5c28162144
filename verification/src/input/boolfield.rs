//! The boolean cell: a single flag toggled in place.

use vstd::prelude::*;
use vstd::string::StringExecFns;

use crate::input::inputfield::InputFieldKind;
use crate::input::inputfieldtype::InputType;
use crate::key::Key;

verus! {

/// An editable boolean value.
#[derive(Clone, Copy, Debug, PartialEq, Eq, Structural)]
pub struct BoolField {
    pub focus: bool,
    pub value: bool,
}

/// The display text of a boolean value.
pub open spec fn spec_bool_text(b: bool) -> Seq<char> {
    if b {
        "true"@
    } else {
        "false"@
    }
}

impl BoolField {
    /// A cell holding the given value, unfocused.
    pub fn from_value(value: bool) -> (r: Self)
        ensures
            r == (BoolField { focus: false, value }),
    {
        BoolField { focus: false, value }
    }

    /// Flips the value in place.
    pub fn toggle(&mut self)
        ensures
            *final(self) == (BoolField { value: !old(self).value, ..*old(self) }),
    {
        self.value = !self.value;
    }
}

impl View for BoolField {
    type V = BoolField;

    open spec fn view(&self) -> BoolField {
        *self
    }
}

impl InputType for BoolField {
    type Value = bool;

    open spec fn spec_default() -> BoolField {
        BoolField { focus: false, value: false }
    }

    open spec fn spec_kind() -> InputFieldKind {
        InputFieldKind::Bool
    }

    open spec fn spec_wf(v: BoolField) -> bool {
        true
    }

    open spec fn spec_value(v: BoolField) -> bool {
        v.value
    }

    open spec fn spec_display(v: BoolField) -> Seq<char> {
        spec_bool_text(v.value)
    }

    open spec fn spec_set_focus(v: BoolField, focus: bool) -> BoolField {
        BoolField { focus, ..v }
    }

    /// The keys `k` and `j` both toggle the value; every other key is
    /// ignored.
    open spec fn spec_on_key(v: BoolField, key: Key) -> BoolField {
        if key == Key::Char('k') || key == Key::Char('j') {
            BoolField { value: !v.value, ..v }
        } else {
            v
        }
    }

    fn default() -> (r: Self) {
        BoolField { focus: false, value: false }
    }

    fn kind() -> (k: InputFieldKind) {
        InputFieldKind::Bool
    }

    fn value(&self) -> (r: bool) {
        self.value
    }

    fn to_string(&self) -> (r: String) {
        if self.value {
            String::from_str("true")
        } else {
            String::from_str("false")
        }
    }

    fn set_focus(&mut self, focus: bool) {
        self.focus = focus;
    }

    fn on_key(&mut self, key: Key) {
        match key {
            Key::Char('k') | Key::Char('j') => self.toggle(),
            _ => {},
        }
    }
}

} // verus!

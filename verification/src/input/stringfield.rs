//! The string cell: free text restricted to printable ASCII.

use vstd::prelude::*;

use crate::input::inputfield::InputFieldKind;
use crate::input::inputfieldtype::InputType;
use crate::key::Key;
use crate::text::chars_to_string;
use crate::text::string_to_chars;

verus! {

/// An editable text value.  The buffer holds the characters typed so far.
#[derive(Clone, Debug, PartialEq)]
pub struct StringField {
    pub focus: bool,
    pub value: Vec<char>,
}

/// The mathematical view of a string cell.
pub struct StringFieldView {
    pub focus: bool,
    pub text: Seq<char>,
}

/// Whether a character is printable, non-control ASCII: the only characters
/// the string cell accepts.
pub open spec fn spec_is_printable_ascii(c: char) -> bool {
    32 <= c as u32 <= 126
}

impl View for StringField {
    type V = StringFieldView;

    open spec fn view(&self) -> StringFieldView {
        StringFieldView { focus: self.focus, text: self.value@ }
    }
}

/// The text after one character of input: printable, non-control ASCII is
/// appended; everything else is ignored.
pub open spec fn spec_string_parse_input(text: Seq<char>, c: char) -> Seq<char> {
    if spec_is_printable_ascii(c) {
        text.push(c)
    } else {
        text
    }
}

/// The text after the last character is removed; empty text stays empty.
pub open spec fn spec_string_remove_last(text: Seq<char>) -> Seq<char> {
    if text.len() > 0 {
        text.subrange(0, text.len() - 1)
    } else {
        text
    }
}

impl StringField {
    /// A cell holding the given text, unfocused.
    pub fn from_text(text: &str) -> (r: Self)
        ensures
            r@ == (StringFieldView { focus: false, text: text@ }),
    {
        StringField { focus: false, value: string_to_chars(text) }
    }

    /// Appends a character, if it is printable, non-control ASCII.
    pub fn parse_input(&mut self, c: char)
        ensures
            final(self)@ == (StringFieldView {
                text: spec_string_parse_input(old(self)@.text, c),
                ..old(self)@
            }),
    {
        let u = c as u32;
        if 32 <= u && u <= 126 {
            self.value.push(c);
        }
    }

    /// Removes the last character, if any.
    pub fn remove_last(&mut self)
        ensures
            final(self)@ == (StringFieldView {
                text: spec_string_remove_last(old(self)@.text),
                ..old(self)@
            }),
    {
        self.value.pop();
    }
}

impl InputType for StringField {
    type Value = String;

    open spec fn spec_default() -> StringFieldView {
        StringFieldView { focus: false, text: Seq::empty() }
    }

    open spec fn spec_kind() -> InputFieldKind {
        InputFieldKind::String
    }

    open spec fn spec_wf(v: StringFieldView) -> bool {
        true
    }

    open spec fn spec_value(v: StringFieldView) -> Seq<char> {
        v.text
    }

    open spec fn spec_display(v: StringFieldView) -> Seq<char> {
        v.text
    }

    open spec fn spec_set_focus(v: StringFieldView, focus: bool) -> StringFieldView {
        StringFieldView { focus, ..v }
    }

    /// Characters go through `parse_input`; backspace removes the last
    /// character; other keys are ignored.
    open spec fn spec_on_key(v: StringFieldView, key: Key) -> StringFieldView {
        match key {
            Key::Char(c) => StringFieldView {
                text: spec_string_parse_input(v.text, c),
                ..v
            },
            Key::Backspace => StringFieldView { text: spec_string_remove_last(v.text), ..v },
            _ => v,
        }
    }

    fn default() -> (r: Self) {
        StringField { focus: false, value: Vec::new() }
    }

    fn kind() -> (k: InputFieldKind) {
        InputFieldKind::String
    }

    fn value(&self) -> (r: String) {
        chars_to_string(&self.value)
    }

    fn to_string(&self) -> (r: String) {
        chars_to_string(&self.value)
    }

    fn set_focus(&mut self, focus: bool) {
        self.focus = focus;
    }

    fn on_key(&mut self, key: Key) {
        match key {
            Key::Char(c) => self.parse_input(c),
            Key::Backspace => self.remove_last(),
            _ => {},
        }
    }
}

} // verus!

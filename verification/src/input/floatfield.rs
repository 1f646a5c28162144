//! The float cell: a raw text buffer edited character by character, with
//! the last successfully parsed text kept alongside it.
//!
//! Floating-point arithmetic cannot be verified here, so the cell never
//! holds a binary float: it keeps the text being typed (`input`) and the
//! most recent text that parses as a number (`value_text`).  The consuming
//! application parses `value_text` when it needs the numeric value.  A parse
//! failure leaves `value_text` unchanged while `input` still reflects the
//! possibly invalid text, exactly as the data-model invariant asks.
//! Stepping the value up or down by one would need float arithmetic and is
//! left to the application.

use vstd::prelude::*;

use crate::input::inputfield::InputFieldKind;
use crate::input::inputfieldtype::InputType;
use crate::input::integerfield::spec_is_digit;
use crate::key::Key;
use crate::text::chars_to_string;
use crate::text::clone_chars;
use crate::text::string_to_chars;

verus! {

/// An editable floating-point value, held as text.
#[derive(Clone, Debug, PartialEq)]
pub struct FloatField {
    pub focus: bool,
    pub input: Vec<char>,
    pub decimal_entered: bool,
    pub value_text: Vec<char>,
}

/// The mathematical view of a float cell.
pub struct FloatFieldView {
    pub focus: bool,
    pub input: Seq<char>,
    pub decimal_entered: bool,
    pub value_text: Seq<char>,
}

impl View for FloatField {
    type V = FloatFieldView;

    open spec fn view(&self) -> FloatFieldView {
        FloatFieldView {
            focus: self.focus,
            input: self.input@,
            decimal_entered: self.decimal_entered,
            value_text: self.value_text@,
        }
    }
}

/// A character the float buffer may hold.
pub open spec fn spec_float_char_ok(c: char) -> bool {
    spec_is_digit(c) || c == '-' || c == '.'
}

/// The shape of a well-formed float buffer: digits, at most one leading
/// minus sign, and at most one decimal point.
pub open spec fn spec_float_shape(s: Seq<char>) -> bool {
    &&& forall|i: int| 0 <= i < s.len() ==> spec_float_char_ok(#[trigger] s[i])
    &&& forall|i: int| 0 <= i < s.len() && #[trigger] s[i] == '-' ==> i == 0
    &&& forall|i: int, j: int|
        0 <= i < s.len() && 0 <= j < s.len() && #[trigger] s[i] == '.' && #[trigger] s[j] == '.'
            ==> i == j
}

/// Whether the text contains at least one digit.  A buffer of this shape
/// parses as a number exactly when it does.
pub open spec fn spec_has_digit(s: Seq<char>) -> bool {
    exists|i: int| 0 <= i < s.len() && spec_is_digit(#[trigger] s[i])
}

/// Well-formedness of a float cell: the buffer has the float shape, the
/// decimal flag is clear only when no point is present, and the kept value
/// text is the buffer itself whenever the buffer parses.
pub open spec fn spec_float_wf(v: FloatFieldView) -> bool {
    &&& spec_float_shape(v.input)
    &&& (!v.decimal_entered ==> forall|i: int|
        0 <= i < v.input.len() ==> #[trigger] v.input[i] != '.')
    &&& (spec_has_digit(v.input) ==> v.value_text == v.input)
    &&& spec_float_shape(v.value_text)
    &&& spec_has_digit(v.value_text)
}

/// The buffer after one character of input: a digit is appended; a minus
/// sign is toggled at the front; one decimal point is accepted per edit
/// session; everything else is ignored.
pub open spec fn spec_float_buffer_after(v: FloatFieldView, c: char) -> Seq<char> {
    if spec_is_digit(c) {
        v.input.push(c)
    } else if c == '-' {
        if v.input.len() > 0 && v.input[0] == '-' {
            v.input.remove(0)
        } else {
            v.input.insert(0, '-')
        }
    } else if c == '.' && !v.decimal_entered {
        v.input.push('.')
    } else {
        v.input
    }
}

/// The cell after one character of input: the buffer is edited, the decimal
/// flag tracks an accepted point, and the value text follows the buffer
/// whenever the new buffer parses.
pub open spec fn spec_float_parse_input(v: FloatFieldView, c: char) -> FloatFieldView {
    let input = spec_float_buffer_after(v, c);
    FloatFieldView {
        focus: v.focus,
        input,
        decimal_entered: v.decimal_entered || (c == '.' && !v.decimal_entered),
        value_text: if spec_has_digit(input) {
            input
        } else {
            v.value_text
        },
    }
}

/// The cell after the last buffer character is removed: popping the decimal
/// point clears the flag, and a shortened buffer that no longer parses
/// leaves the previous value text unchanged.
pub open spec fn spec_float_remove_last(v: FloatFieldView) -> FloatFieldView {
    if v.input.len() == 0 {
        v
    } else {
        let input = v.input.subrange(0, v.input.len() - 1);
        FloatFieldView {
            focus: v.focus,
            input,
            decimal_entered: if v.input[v.input.len() - 1] == '.' {
                false
            } else {
                v.decimal_entered
            },
            value_text: if spec_has_digit(input) {
                input
            } else {
                v.value_text
            },
        }
    }
}

/// The cell built from initial text: text of the right shape is taken as
/// the buffer, anything else yields an empty buffer, and the value text
/// falls back to zero when the buffer does not parse.
pub open spec fn spec_float_from_text(text: Seq<char>) -> FloatFieldView {
    let input = if spec_float_shape(text) {
        text
    } else {
        Seq::empty()
    };
    FloatFieldView {
        focus: false,
        input,
        decimal_entered: true,
        value_text: if spec_has_digit(input) {
            input
        } else {
            seq!['0']
        },
    }
}

fn has_digit(v: &Vec<char>) -> (b: bool)
    ensures
        b == spec_has_digit(v@),
{
    let mut i: usize = 0;
    while i < v.len()
        invariant
            i <= v.len(),
            forall|j: int| 0 <= j < i ==> !spec_is_digit(#[trigger] v@[j]),
        decreases v.len() - i,
    {
        let u = v[i] as u32;
        if 48 <= u && u <= 57 {
            return true;
        }
        i = i + 1;
    }
    false
}

fn float_shape_ok(v: &Vec<char>) -> (b: bool)
    ensures
        b == spec_float_shape(v@),
{
    let mut dot: Option<usize> = None;
    let mut i: usize = 0;
    while i < v.len()
        invariant
            i <= v.len(),
            forall|j: int| 0 <= j < i ==> spec_float_char_ok(#[trigger] v@[j]),
            forall|j: int| 0 <= j < i && #[trigger] v@[j] == '-' ==> j == 0,
            match dot {
                Option::None => forall|j: int| 0 <= j < i ==> #[trigger] v@[j] != '.',
                Option::Some(p) => p < i && v@[p as int] == '.' && forall|j: int|
                    0 <= j < i && #[trigger] v@[j] == '.' ==> j == p,
            },
        decreases v.len() - i,
    {
        let c = v[i];
        let u = c as u32;
        let is_digit = 48 <= u && u <= 57;
        if !(is_digit || c == '-' || c == '.') {
            return false;
        }
        if c == '-' && i != 0 {
            return false;
        }
        if c == '.' {
            match dot {
                Option::Some(p) => {
                    proof {
                        assert(v@[p as int] == '.' && v@[i as int] == '.' && p != i);
                    }
                    return false;
                },
                Option::None => {
                    dot = Some(i);
                },
            }
        }
        i = i + 1;
    }
    true
}

impl FloatField {
    /// A cell initialised from the given text, unfocused.  Text that is not
    /// shaped like a number yields an empty buffer; the decimal flag starts
    /// set, so a fresh point is only accepted after the buffer is edited
    /// past one.
    pub fn from_text(text: &str) -> (r: Self)
        ensures
            r@ == spec_float_from_text(text@),
            spec_float_wf(r@),
    {
        let chars = string_to_chars(text);
        let input: Vec<char> = if float_shape_ok(&chars) {
            chars
        } else {
            Vec::new()
        };
        let value_text: Vec<char> = if has_digit(&input) {
            clone_chars(&input)
        } else {
            let mut z: Vec<char> = Vec::new();
            z.push('0');
            proof {
                assert(z@[0] == '0' && spec_is_digit(z@[0]));
                assert(spec_has_digit(z@));
            }
            z
        };
        let r = FloatField { focus: false, input, decimal_entered: true, value_text };
        r
    }

    /// Feeds one character into the buffer and reparses: a digit appends, a
    /// minus sign toggles at the front, a decimal point is accepted once; a
    /// buffer that no longer parses leaves the value text unchanged.
    pub fn parse_input(&mut self, c: char)
        requires
            spec_float_wf(old(self)@),
        ensures
            final(self)@ == spec_float_parse_input(old(self)@, c),
            spec_float_wf(final(self)@),
    {
        let u = c as u32;
        if 48 <= u && u <= 57 {
            self.input.push(c);
            proof {
                assert(spec_is_digit(self.input@[self.input@.len() - 1]));
                assert(spec_has_digit(self.input@));
            }
            self.value_text = clone_chars(&self.input);
        } else if c == '-' {
            if self.input.len() > 0 && self.input[0] == '-' {
                self.input.remove(0);
            } else {
                self.input.insert(0, '-');
            }
            if has_digit(&self.input) {
                self.value_text = clone_chars(&self.input);
            }
        } else if c == '.' && !self.decimal_entered {
            self.input.push('.');
            self.decimal_entered = true;
            if has_digit(&self.input) {
                self.value_text = clone_chars(&self.input);
            }
        }
    }

    /// Removes the last buffer character; removing the decimal point allows
    /// a new one, and a buffer that no longer parses leaves the previous
    /// value text unchanged.
    pub fn remove_last(&mut self)
        requires
            spec_float_wf(old(self)@),
        ensures
            final(self)@ == spec_float_remove_last(old(self)@),
            spec_float_wf(final(self)@),
    {
        match self.input.pop() {
            Some(last) => {
                if last == '.' {
                    self.decimal_entered = false;
                }
                if has_digit(&self.input) {
                    self.value_text = clone_chars(&self.input);
                }
            },
            None => {},
        }
    }
}

impl InputType for FloatField {
    type Value = String;

    open spec fn spec_default() -> FloatFieldView {
        FloatFieldView {
            focus: false,
            input: Seq::empty(),
            decimal_entered: false,
            value_text: seq!['0'],
        }
    }

    open spec fn spec_kind() -> InputFieldKind {
        InputFieldKind::Float
    }

    open spec fn spec_wf(v: FloatFieldView) -> bool {
        spec_float_wf(v)
    }

    open spec fn spec_value(v: FloatFieldView) -> Seq<char> {
        v.value_text
    }

    open spec fn spec_display(v: FloatFieldView) -> Seq<char> {
        v.input
    }

    open spec fn spec_set_focus(v: FloatFieldView, focus: bool) -> FloatFieldView {
        FloatFieldView { focus, ..v }
    }

    /// Characters go through `parse_input`; backspace removes the last
    /// buffer character; other keys are ignored.
    open spec fn spec_on_key(v: FloatFieldView, key: Key) -> FloatFieldView {
        match key {
            Key::Char(c) => spec_float_parse_input(v, c),
            Key::Backspace => spec_float_remove_last(v),
            _ => v,
        }
    }

    fn default() -> (r: Self) {
        let mut z: Vec<char> = Vec::new();
        z.push('0');
        proof {
            assert(z@ =~= seq!['0']);
            assert(z@[0] == '0' && spec_is_digit(z@[0]));
            assert(spec_has_digit(z@));
        }
        FloatField { focus: false, input: Vec::new(), decimal_entered: false, value_text: z }
    }

    fn kind() -> (k: InputFieldKind) {
        InputFieldKind::Float
    }

    fn value(&self) -> (r: String) {
        chars_to_string(&self.value_text)
    }

    fn to_string(&self) -> (r: String) {
        chars_to_string(&self.input)
    }

    fn set_focus(&mut self, focus: bool) {
        self.focus = focus;
    }

    fn on_key(&mut self, key: Key) {
        match key {
            Key::Char(c) => self.parse_input(c),
            Key::Backspace => self.remove_last(),
            _ => {},
        }
    }
}

} // verus!

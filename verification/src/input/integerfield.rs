//! The integer cell: a signed value edited digit by digit, with all growth
//! saturating at the representable bounds.

use vstd::prelude::*;

use crate::input::inputfield::InputFieldKind;
use crate::input::inputfieldtype::InputType;
use crate::key::Key;
use crate::text::i64_to_string;
use crate::text::spec_i64_text;

verus! {

/// An editable signed integer value.
#[derive(Clone, Copy, Debug, PartialEq, Eq, Structural)]
pub struct IntegerField {
    pub focus: bool,
    pub value: i64,
}

/// Clips an unbounded integer to the representable `i64` range.
pub open spec fn spec_clip_i64(x: int) -> int {
    if x > i64::MAX {
        i64::MAX as int
    } else if x < i64::MIN {
        i64::MIN as int
    } else {
        x
    }
}

/// Division by ten truncating toward zero, as the last decimal digit is
/// dropped.
pub open spec fn spec_div10_trunc(v: int) -> int {
    if v >= 0 {
        v / 10
    } else {
        -((-v) / 10)
    }
}

/// Whether a character is a decimal digit.
pub open spec fn spec_is_digit(c: char) -> bool {
    48 <= c as u32 <= 57
}

/// The numeric value of a decimal digit character.
pub open spec fn spec_digit_value(c: char) -> int {
    c as u32 - 48
}

/// Appending a decimal digit: the value is multiplied by ten and the digit
/// added, each step saturating at the `i64` bounds.
pub open spec fn spec_append_digit(v: int, d: int) -> int {
    spec_clip_i64(spec_clip_i64(v * 10) + d)
}

fn sat_mul10(v: i64) -> (r: i64)
    ensures
        r == spec_clip_i64(v * 10),
{
    match v.checked_mul(10) {
        Some(m) => m,
        None => {
            if v > 0 {
                proof {
                    assert(v * 10 > i64::MAX) by (nonlinear_arith)
                        requires
                            v > 0,
                            !(i64::MIN <= v * 10 <= i64::MAX);
                }
                i64::MAX
            } else {
                proof {
                    assert(v * 10 < i64::MIN) by (nonlinear_arith)
                        requires
                            v <= 0,
                            !(i64::MIN <= v * 10 <= i64::MAX);
                }
                i64::MIN
            }
        },
    }
}

fn sat_add(a: i64, b: i64) -> (r: i64)
    ensures
        r == spec_clip_i64(a + b),
{
    match a.checked_add(b) {
        Some(s) => s,
        None => {
            if b > 0 {
                i64::MAX
            } else {
                i64::MIN
            }
        },
    }
}

fn sat_sub(a: i64, b: i64) -> (r: i64)
    ensures
        r == spec_clip_i64(a - b),
{
    match a.checked_sub(b) {
        Some(s) => s,
        None => {
            if b > 0 {
                i64::MIN
            } else {
                i64::MAX
            }
        },
    }
}

fn sat_negate(v: i64) -> (r: i64)
    ensures
        r == spec_clip_i64(-v),
{
    if v == i64::MIN {
        i64::MAX
    } else {
        -v
    }
}

fn div10_trunc(v: i64) -> (r: i64)
    ensures
        r == spec_div10_trunc(v as int),
{
    let q = v.checked_div(10);
    proof {
        if v as int >= 0 {
            assert(v as int / 10 <= v as int) by (nonlinear_arith)
                requires
                    v as int >= 0;
        } else {
            assert((-(v as int)) / 10 <= -(v as int)) by (nonlinear_arith)
                requires
                    (v as int) < 0;
        }
    }
    match q {
        Some(r) => r,
        None => 0,
    }
}

impl IntegerField {
    /// A cell holding the given value, unfocused.
    pub fn from_value(value: i64) -> (r: Self)
        ensures
            r == (IntegerField { focus: false, value }),
    {
        IntegerField { focus: false, value }
    }

    /// A decimal digit appends itself to the value; a minus sign negates the
    /// value; both saturate at the `i64` bounds, so no input sequence can
    /// overflow.
    pub fn parse_input(&mut self, c: char)
        ensures
            *final(self) == (IntegerField {
                value: spec_int_parse_input(old(self).value as int, c) as i64,
                ..*old(self)
            }),
    {
        let u = c as u32;
        if 48 <= u && u <= 57 {
            let m = sat_mul10(self.value);
            self.value = sat_add(m, (u - 48) as i64);
        } else if c == '-' {
            self.value = sat_negate(self.value);
        }
    }

    /// Drops the last decimal digit of the value.
    pub fn remove_last(&mut self)
        ensures
            *final(self) == (IntegerField {
                value: spec_div10_trunc(old(self).value as int) as i64,
                ..*old(self)
            }),
    {
        self.value = div10_trunc(self.value);
    }

    /// Adds one, saturating at the upper bound.
    pub fn increment(&mut self)
        ensures
            *final(self) == (IntegerField {
                value: spec_clip_i64(old(self).value + 1) as i64,
                ..*old(self)
            }),
    {
        self.value = sat_add(self.value, 1);
    }

    /// Subtracts one, saturating at the lower bound.
    pub fn decrement(&mut self)
        ensures
            *final(self) == (IntegerField {
                value: spec_clip_i64(old(self).value - 1) as i64,
                ..*old(self)
            }),
    {
        self.value = sat_sub(self.value, 1);
    }
}

/// The value after one character of input: digits append, a minus sign
/// negates, anything else is ignored.
pub open spec fn spec_int_parse_input(v: int, c: char) -> int {
    if spec_is_digit(c) {
        spec_append_digit(v, spec_digit_value(c))
    } else if c == '-' {
        spec_clip_i64(-v)
    } else {
        v
    }
}

/// Whatever sequence of append operations is applied, a saturating append
/// of a digit to an in-range value stays within the `i64` bounds: the cell
/// can never overflow.
pub proof fn lemma_append_digit_saturates(v: int, d: int)
    requires
        i64::MIN <= v <= i64::MAX,
        0 <= d <= 9,
    ensures
        i64::MIN <= spec_append_digit(v, d) <= i64::MAX,
{
}

impl View for IntegerField {
    type V = IntegerField;

    open spec fn view(&self) -> IntegerField {
        *self
    }
}

impl InputType for IntegerField {
    type Value = i64;

    open spec fn spec_default() -> IntegerField {
        IntegerField { focus: false, value: 0 }
    }

    open spec fn spec_kind() -> InputFieldKind {
        InputFieldKind::Integer
    }

    open spec fn spec_wf(v: IntegerField) -> bool {
        true
    }

    open spec fn spec_value(v: IntegerField) -> i64 {
        v.value
    }

    open spec fn spec_display(v: IntegerField) -> Seq<char> {
        spec_i64_text(v.value as int)
    }

    open spec fn spec_set_focus(v: IntegerField, focus: bool) -> IntegerField {
        IntegerField { focus, ..v }
    }

    /// `k` increments and `j` decrements by one; other characters go through
    /// `parse_input`; backspace drops the last digit.
    open spec fn spec_on_key(v: IntegerField, key: Key) -> IntegerField {
        match key {
            Key::Char(c) => {
                if c == 'k' {
                    IntegerField { value: spec_clip_i64(v.value + 1) as i64, ..v }
                } else if c == 'j' {
                    IntegerField { value: spec_clip_i64(v.value - 1) as i64, ..v }
                } else {
                    IntegerField { value: spec_int_parse_input(v.value as int, c) as i64, ..v }
                }
            },
            Key::Backspace => IntegerField { value: spec_div10_trunc(v.value as int) as i64, ..v },
            _ => v,
        }
    }

    fn default() -> (r: Self) {
        IntegerField { focus: false, value: 0 }
    }

    fn kind() -> (k: InputFieldKind) {
        InputFieldKind::Integer
    }

    fn value(&self) -> (r: i64) {
        self.value
    }

    fn to_string(&self) -> (r: String) {
        i64_to_string(self.value)
    }

    fn set_focus(&mut self, focus: bool) {
        self.focus = focus;
    }

    fn on_key(&mut self, key: Key) {
        match key {
            Key::Char(c) => {
                if c == 'k' {
                    self.increment();
                } else if c == 'j' {
                    self.decrement();
                } else {
                    self.parse_input(c);
                }
            },
            Key::Backspace => self.remove_last(),
            _ => {},
        }
    }
}

} // verus!

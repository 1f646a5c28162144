//! The form controller: a field collection, a focus index, and the
//! submit/cancel lifecycle state machine.
//!
//! While the form is active, escape cancels unconditionally; enter submits
//! unless the focused field is an enum field with its popup expanded, in
//! which case the key collapses the popup instead — popup confirmation is
//! never mistaken for form confirmation.  Tab advances focus cyclically,
//! and every other key goes to the focused field.  A hidden or terminal
//! form processes no further keys; the owning application observes the
//! terminal state and replaces the form.

use vstd::prelude::*;

use crate::input::enumfield::EnumFieldState;
use crate::input::field::spec_field_cursor_offset;
use crate::input::field::spec_field_enum_state;
use crate::input::field::spec_field_focused;
use crate::input::field::spec_field_on_key;
use crate::input::field::spec_field_wf;
use crate::input::field::spec_fields_set_focus;
use crate::input::field::spec_fields_values;
use crate::input::field::spec_fields_wf;
use crate::input::field::Fields;
use crate::input::field::FieldView;
use crate::input::value::Values;
use crate::key::Key;

verus! {

/// The lifecycle state of a form.
#[derive(Clone, Copy, Debug, PartialEq, Eq, Structural)]
pub enum InputFormState {
    /// No active editing; an idle placeholder.
    Hidden,
    /// Editing in progress.
    Active,
    /// Terminal: the form was confirmed.
    Submitted,
    /// Terminal: the form was aborted.
    Cancelled,
}

/// A form: its lifecycle state, title, focus index, and fields.
#[derive(Clone, Debug)]
pub struct InputForm {
    pub state: InputFormState,
    pub title: String,
    pub focus_idx: usize,
    pub fields: Fields,
}

/// The mathematical view of a form.
pub struct InputFormView {
    pub state: InputFormState,
    pub title: Seq<char>,
    pub focus_idx: int,
    pub fields: Seq<FieldView>,
}

impl View for InputForm {
    type V = InputFormView;

    open spec fn view(&self) -> InputFormView {
        InputFormView {
            state: self.state,
            title: self.title@,
            focus_idx: self.focus_idx as int,
            fields: self.fields@,
        }
    }
}

/// Well-formedness of a form: every cell is well-formed, and while the
/// form is active it has at least one field, a valid focus index, and
/// exactly one focused field — the one at the focus index.
pub open spec fn spec_form_wf(v: InputFormView) -> bool {
    &&& spec_fields_wf(v.fields)
    &&& 0 <= v.focus_idx
    &&& v.state == InputFormState::Active ==> v.fields.len() > 0 && v.focus_idx < v.fields.len()
    &&& v.state == InputFormState::Active ==> forall|j: int|
        0 <= j < v.fields.len() ==> spec_field_focused(#[trigger] v.fields[j]) == (j
            == v.focus_idx)
}

/// The popup state of the focused field: expanded only when the focus is
/// on an enum field whose popup is open.
pub open spec fn spec_form_enum_state(v: InputFormView) -> EnumFieldState {
    if 0 <= v.focus_idx < v.fields.len() {
        spec_field_enum_state(v.fields[v.focus_idx])
    } else {
        EnumFieldState::Hidden
    }
}

/// The form after focus advances one step, wrapping modulo the field
/// count.
pub open spec fn spec_form_next_focus(v: InputFormView) -> InputFormView {
    let idx = (v.focus_idx + 1) % (v.fields.len() as int);
    InputFormView { focus_idx: idx, fields: spec_fields_set_focus(v.fields, idx), ..v }
}

/// The form after one key event.
///
/// A form that is not active ignores the key.  While the focused field's
/// popup is collapsed: escape cancels, enter submits, tab advances focus,
/// and any other key goes to the focused field.  While the popup is
/// expanded, every key goes to that enum field alone, so enter collapses
/// the popup rather than submitting the form.
pub open spec fn spec_form_on_key(v: InputFormView, key: Key) -> InputFormView {
    if v.state != InputFormState::Active {
        v
    } else if spec_form_enum_state(v) == EnumFieldState::Hidden {
        match key {
            Key::Esc => InputFormView { state: InputFormState::Cancelled, ..v },
            Key::Enter => InputFormView { state: InputFormState::Submitted, ..v },
            Key::Tab => spec_form_next_focus(v),
            _ => InputFormView {
                fields: v.fields.update(
                    v.focus_idx,
                    spec_field_on_key(v.fields[v.focus_idx], key),
                ),
                ..v
            },
        }
    } else {
        InputFormView {
            fields: v.fields.update(v.focus_idx, spec_field_on_key(v.fields[v.focus_idx], key)),
            ..v
        }
    }
}

/// The caret offset of the focused field, or zero for a form without
/// fields.
pub open spec fn spec_form_cursor_offset(v: InputFormView) -> int {
    if 0 <= v.focus_idx < v.fields.len() {
        spec_field_cursor_offset(v.fields[v.focus_idx])
    } else {
        0
    }
}

/// Routing a key to a cell never changes which field is focused.
proof fn lemma_on_key_keeps_focus(f: FieldView, key: Key)
    ensures
        spec_field_focused(spec_field_on_key(f, key)) == spec_field_focused(f),
{
}

impl InputForm {
    /// The view of the hidden placeholder form.
    pub open spec fn spec_empty() -> InputFormView {
        InputFormView {
            state: InputFormState::Hidden,
            title: Seq::empty(),
            focus_idx: 0,
            fields: Seq::empty(),
        }
    }

    /// An active form over the given fields, focused on the first one.
    pub fn new(label: &str, fields: Fields) -> (r: Self)
        requires
            fields@.len() > 0,
            spec_fields_wf(fields@),
        ensures
            r@ == (InputFormView {
                state: InputFormState::Active,
                title: label@,
                focus_idx: 0,
                fields: spec_fields_set_focus(fields@, 0),
            }),
            spec_form_wf(r@),
    {
        let mut fields = fields;
        fields.set_focus(0);
        InputForm {
            state: InputFormState::Active,
            title: label.to_owned(),
            focus_idx: 0,
            fields,
        }
    }

    /// A hidden placeholder form with no fields.
    pub fn empty() -> (r: Self)
        ensures
            r@ == (InputFormView {
                state: InputFormState::Hidden,
                title: Seq::empty(),
                focus_idx: 0,
                fields: Seq::empty(),
            }),
            spec_form_wf(r@),
    {
        InputForm {
            state: InputFormState::Hidden,
            title: String::new(),
            focus_idx: 0,
            fields: Fields::empty(),
        }
    }

    /// Whether editing is in progress.
    pub fn is_active(&self) -> (r: bool)
        ensures
            r == (self@.state == InputFormState::Active),
    {
        self.state == InputFormState::Active
    }

    /// Whether the form was confirmed.
    pub fn is_submitted(&self) -> (r: bool)
        ensures
            r == (self@.state == InputFormState::Submitted),
    {
        self.state == InputFormState::Submitted
    }

    /// Whether the form was aborted.
    pub fn is_cancelled(&self) -> (r: bool)
        ensures
            r == (self@.state == InputFormState::Cancelled),
    {
        self.state == InputFormState::Cancelled
    }

    /// Extracts the ordered sequence of named, typed values.
    pub fn values(&self) -> (r: Values)
        ensures
            r@ == spec_fields_values(self@.fields),
    {
        self.fields.values()
    }

    fn get_current_enum_field_state(&self) -> (r: EnumFieldState)
        ensures
            r == spec_form_enum_state(self@),
    {
        if self.focus_idx < self.fields.len() {
            self.fields.get(self.focus_idx).enum_state()
        } else {
            EnumFieldState::Hidden
        }
    }

    fn next_focus(&mut self)
        requires
            spec_form_wf(old(self)@),
            old(self)@.state == InputFormState::Active,
        ensures
            final(self)@ == spec_form_next_focus(old(self)@),
            spec_fields_wf(final(self)@.fields),
            forall|j: int|
                0 <= j < final(self)@.fields.len() ==> spec_field_focused(
                    #[trigger] final(self)@.fields[j],
                ) == (j == final(self)@.focus_idx),
            0 <= final(self)@.focus_idx < final(self)@.fields.len(),
    {
        let n = self.fields.len();
        self.focus_idx = (self.focus_idx + 1) % n;
        self.fields.set_focus(self.focus_idx);
    }

    /// Reacts to one key event, as `spec_form_on_key` describes.
    pub fn on_key(&mut self, key: Key)
        requires
            spec_form_wf(old(self)@),
        ensures
            final(self)@ == spec_form_on_key(old(self)@, key),
            spec_form_wf(final(self)@),
    {
        if !self.is_active() {
            return;
        }
        match self.get_current_enum_field_state() {
            EnumFieldState::Hidden => {
                match key {
                    Key::Esc => {
                        self.state = InputFormState::Cancelled;
                    },
                    Key::Enter => {
                        self.state = InputFormState::Submitted;
                    },
                    Key::Tab => {
                        self.next_focus();
                    },
                    _ => {
                        proof {
                            assert(spec_field_wf(old(self)@.fields[old(self)@.focus_idx]));
                        }
                        self.fields.field_on_key(self.focus_idx, key);
                        proof {
                            lemma_on_key_keeps_focus(old(self)@.fields[old(self)@.focus_idx], key);
                        }
                    },
                }
            },
            EnumFieldState::Active => {
                proof {
                    assert(spec_field_wf(old(self)@.fields[old(self)@.focus_idx]));
                }
                self.fields.field_on_key(self.focus_idx, key);
                proof {
                    lemma_on_key_keeps_focus(old(self)@.fields[old(self)@.focus_idx], key);
                }
            },
        }
    }

    /// The caret offset of the focused field, from that field's rendered
    /// left edge.
    pub fn cursor_offset(&self) -> (r: usize)
        ensures
            r == spec_form_cursor_offset(self@),
    {
        if self.focus_idx < self.fields.len() {
            self.fields.get(self.focus_idx).cursor_offset()
        } else {
            0
        }
    }
}

impl Default for InputForm {
    /// The default form is the hidden placeholder.
    fn default() -> (r: Self)
        ensures
            r@ == (InputFormView {
                state: InputFormState::Hidden,
                title: Seq::empty(),
                focus_idx: 0,
                fields: Seq::empty(),
            }),
            spec_form_wf(r@),
    {
        InputForm::empty()
    }
}

/// Focus invariant: advancing focus in a well-formed active form keeps the
/// focus index within the field count and leaves exactly one field
/// focused — the one at the new focus index.  Chained over any sequence of
/// advances, the invariant holds at every step.
pub proof fn lemma_focus_invariant(v: InputFormView)
    requires
        spec_form_wf(v),
        v.state == InputFormState::Active,
    ensures
        ({
            let r = spec_form_on_key(v, Key::Tab);
            &&& 0 <= r.focus_idx < r.fields.len()
            &&& forall|j: int|
                0 <= j < r.fields.len() ==> spec_field_focused(#[trigger] r.fields[j]) == (j
                    == r.focus_idx)
        }),
{
    let r = spec_form_on_key(v, Key::Tab);
    if spec_form_enum_state(v) == EnumFieldState::Hidden {
        assert forall|j: int| 0 <= j < r.fields.len() implies spec_field_focused(
            #[trigger] r.fields[j],
        ) == (j == r.focus_idx) by {
            crate::input::field::lemma_set_focus_focused(v.fields[j], j == r.focus_idx);
        }
    } else {
        assert forall|j: int| 0 <= j < r.fields.len() implies spec_field_focused(
            #[trigger] r.fields[j],
        ) == (j == r.focus_idx) by {
            lemma_on_key_keeps_focus(v.fields[v.focus_idx], Key::Tab);
        }
    }
}

/// The form after `n` focus advances.
pub open spec fn spec_form_after_advances(v: InputFormView, n: nat) -> InputFormView
    decreases n,
{
    if n == 0 {
        v
    } else {
        spec_form_on_key(spec_form_after_advances(v, (n - 1) as nat), Key::Tab)
    }
}

/// The advance-focus key leaves every cell unchanged: no cell reacts to it
/// locally.
proof fn lemma_field_tab_noop(f: FieldView)
    ensures
        spec_field_on_key(f, Key::Tab) == f,
{
}

/// One focus advance from a well-formed active form leaves it well-formed
/// and active.
proof fn lemma_form_tab_preserves_wf(v: InputFormView)
    requires
        spec_form_wf(v),
        v.state == InputFormState::Active,
    ensures
        spec_form_wf(spec_form_on_key(v, Key::Tab)),
        spec_form_on_key(v, Key::Tab).state == InputFormState::Active,
{
    let r = spec_form_on_key(v, Key::Tab);
    lemma_focus_invariant(v);
    if spec_form_enum_state(v) == EnumFieldState::Hidden {
        assert forall|j: int| 0 <= j < r.fields.len() implies spec_field_wf(
            #[trigger] r.fields[j],
        ) by {
            crate::input::field::lemma_set_focus_focused(v.fields[j], j == r.focus_idx);
        }
    } else {
        lemma_field_tab_noop(v.fields[v.focus_idx]);
        assert(r.fields =~= v.fields);
    }
}

/// Focus invariant over whole sequences: for any field collection with at
/// least one field, any number of focus advances from a well-formed active
/// form leaves the form active with its focus index within the field count
/// and exactly one field focused — the one at the focus index.
pub proof fn lemma_focus_invariant_sequence(v: InputFormView, n: nat)
    requires
        spec_form_wf(v),
        v.state == InputFormState::Active,
    ensures
        ({
            let r = spec_form_after_advances(v, n);
            &&& spec_form_wf(r)
            &&& r.state == InputFormState::Active
            &&& 0 <= r.focus_idx < r.fields.len()
            &&& forall|j: int|
                0 <= j < r.fields.len() ==> spec_field_focused(#[trigger] r.fields[j]) == (j
                    == r.focus_idx)
        }),
    decreases n,
{
    if n > 0 {
        lemma_focus_invariant_sequence(v, (n - 1) as nat);
        let p = spec_form_after_advances(v, (n - 1) as nat);
        lemma_form_tab_preserves_wf(p);
    }
}

/// Popup confirm precedence: confirming while the focused field is an enum
/// field with its popup expanded leaves the form active — the key collapses
/// the popup instead of submitting the form.
pub proof fn lemma_popup_confirm_precedence(v: InputFormView)
    requires
        spec_form_wf(v),
        v.state == InputFormState::Active,
        spec_field_enum_state(v.fields[v.focus_idx]) == EnumFieldState::Active,
    ensures
        spec_form_on_key(v, Key::Enter).state == InputFormState::Active,
        spec_field_enum_state(
            spec_form_on_key(v, Key::Enter).fields[v.focus_idx],
        ) == EnumFieldState::Hidden,
{
}

} // verus!

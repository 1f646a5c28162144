//! The input list: a field collection edited in place, without the form's
//! submit/cancel lifecycle.

use vstd::prelude::*;

use crate::input::field::spec_field_on_key;
use crate::input::field::spec_field_wf;
use crate::input::field::spec_fields_set_focus;
use crate::input::field::spec_fields_values;
use crate::input::field::spec_fields_wf;
use crate::input::field::Fields;
use crate::input::field::FieldView;
use crate::input::value::Values;
use crate::key::Key;

verus! {

/// The editing state of an input list.
#[derive(Clone, Copy, Debug, PartialEq, Eq, Structural)]
pub enum InputListState {
    /// Nothing happening.
    Idle,
    /// Editing in progress.
    Active,
    /// A value differs from its saved counterpart.
    Changed,
    /// Waiting for a save-or-reset decision.
    SaveOrReset,
}

/// A titled, optionally bordered list of editable fields.
#[derive(Clone, Debug)]
pub struct InputList {
    pub title: Option<String>,
    pub state: InputListState,
    pub fields: Fields,
    pub focus_idx: usize,
    pub show_border: bool,
}

/// The mathematical view of an input list.
pub struct InputListView {
    pub title: Option<Seq<char>>,
    pub state: InputListState,
    pub fields: Seq<FieldView>,
    pub focus_idx: int,
    pub show_border: bool,
}

impl View for InputList {
    type V = InputListView;

    open spec fn view(&self) -> InputListView {
        InputListView {
            title: match self.title {
                Some(t) => Some(t@),
                None => None,
            },
            state: self.state,
            fields: self.fields@,
            focus_idx: self.focus_idx as int,
            show_border: self.show_border,
        }
    }
}

/// Well-formedness of a list: every cell is well-formed and the focus
/// index is valid whenever there are fields.
pub open spec fn spec_list_wf(v: InputListView) -> bool {
    &&& spec_fields_wf(v.fields)
    &&& 0 <= v.focus_idx
    &&& v.fields.len() > 0 ==> v.focus_idx < v.fields.len()
}

/// The list after focus advances one step, wrapping modulo the field
/// count; a list without fields is left unchanged.
pub open spec fn spec_list_next_focus(v: InputListView) -> InputListView {
    if v.fields.len() == 0 {
        v
    } else {
        let idx = (v.focus_idx + 1) % (v.fields.len() as int);
        InputListView { focus_idx: idx, fields: spec_fields_set_focus(v.fields, idx), ..v }
    }
}

/// The list after one key event: escape and enter are ignored, tab
/// advances focus, and any other key goes to the focused field.
pub open spec fn spec_list_on_key(v: InputListView, key: Key) -> InputListView {
    match key {
        Key::Esc => v,
        Key::Enter => v,
        Key::Tab => spec_list_next_focus(v),
        _ => {
            if 0 <= v.focus_idx < v.fields.len() {
                InputListView {
                    fields: v.fields.update(
                        v.focus_idx,
                        spec_field_on_key(v.fields[v.focus_idx], key),
                    ),
                    ..v
                }
            } else {
                v
            }
        },
    }
}

impl InputList {
    /// The view of the empty, untitled, borderless list.
    pub open spec fn spec_empty() -> InputListView {
        InputListView {
            title: None,
            state: InputListState::Idle,
            fields: Seq::empty(),
            focus_idx: 0,
            show_border: false,
        }
    }

    /// A list over the given fields, idle and focused on the first one.
    pub fn new(title: Option<&str>, show_border: bool, fields: Fields) -> (r: Self)
        requires
            spec_fields_wf(fields@),
        ensures
            r@ == (InputListView {
                title: match title {
                    Some(t) => Some(t@),
                    None => None,
                },
                state: InputListState::Idle,
                fields: fields@,
                focus_idx: 0,
                show_border,
            }),
            spec_list_wf(r@),
    {
        let owned: Option<String> = match title {
            Some(t) => Some(t.to_owned()),
            None => None,
        };
        InputList { title: owned, state: InputListState::Idle, fields, focus_idx: 0, show_border }
    }

    /// An empty, untitled, borderless list.
    pub fn empty() -> (r: Self)
        ensures
            r@ == (InputListView {
                title: None,
                state: InputListState::Idle,
                fields: Seq::empty(),
                focus_idx: 0,
                show_border: false,
            }),
            spec_list_wf(r@),
    {
        InputList {
            title: None,
            state: InputListState::Idle,
            fields: Fields::empty(),
            focus_idx: 0,
            show_border: false,
        }
    }

    /// Whether editing is in progress.
    pub fn is_active(&self) -> (r: bool)
        ensures
            r == (self@.state == InputListState::Active),
    {
        self.state == InputListState::Active
    }

    /// Whether a value differs from its saved counterpart.
    pub fn is_changed(&self) -> (r: bool)
        ensures
            r == (self@.state == InputListState::Changed),
    {
        self.state == InputListState::Changed
    }

    /// Whether the list waits for a save-or-reset decision.
    pub fn is_save_or_reset(&self) -> (r: bool)
        ensures
            r == (self@.state == InputListState::SaveOrReset),
    {
        self.state == InputListState::SaveOrReset
    }

    /// Extracts the ordered sequence of named, typed values.
    pub fn values(&self) -> (r: Values)
        ensures
            r@ == spec_fields_values(self@.fields),
    {
        self.fields.values()
    }

    fn next_focus(&mut self)
        requires
            spec_list_wf(old(self)@),
        ensures
            final(self)@ == spec_list_next_focus(old(self)@),
            spec_list_wf(final(self)@),
    {
        if self.fields.is_empty() {
            return;
        }
        let n = self.fields.len();
        self.focus_idx = (self.focus_idx + 1) % n;
        self.fields.set_focus(self.focus_idx);
    }

    /// Reacts to one key event, as `spec_list_on_key` describes.
    pub fn on_key(&mut self, key: Key)
        requires
            spec_list_wf(old(self)@),
        ensures
            final(self)@ == spec_list_on_key(old(self)@, key),
            spec_list_wf(final(self)@),
    {
        match key {
            Key::Esc => {},
            Key::Enter => {},
            Key::Tab => {
                self.next_focus();
            },
            _ => {
                if self.focus_idx < self.fields.len() {
                    proof {
                        assert(spec_field_wf(old(self)@.fields[old(self)@.focus_idx]));
                    }
                    self.fields.field_on_key(self.focus_idx, key);
                }
            },
        }
    }
}

impl Default for InputList {
    /// The default list is the empty, untitled, borderless one.
    fn default() -> (r: Self)
        ensures
            r@ == (InputListView {
                title: None,
                state: InputListState::Idle,
                fields: Seq::empty(),
                focus_idx: 0,
                show_border: false,
            }),
            spec_list_wf(r@),
    {
        InputList::empty()
    }
}

} // verus!

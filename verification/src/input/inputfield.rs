//! A labeled field: one cell together with a display title and caret
//! placement.

use vstd::prelude::*;
use vstd::string::StrSliceExecFns;

use crate::input::inputfieldtype::InputType;
use crate::key::Key;

verus! {

/// The tag identifying which cell kind a labeled field wraps.
#[derive(Clone, Copy, Debug, PartialEq, Eq, Structural)]
pub enum InputFieldKind {
    Bool,
    Integer,
    Float,
    String,
    Enum,
}

/// A cell wrapped with a display title.
#[derive(Clone, Debug)]
pub struct InputField<T: InputType> {
    pub title: String,
    pub kind: InputFieldKind,
    pub value: T,
}

/// The mathematical view of a labeled field over the view of its cell.
pub struct InputFieldView<V> {
    pub title: Seq<char>,
    pub kind: InputFieldKind,
    pub value: V,
}

impl<T: InputType> View for InputField<T> {
    type V = InputFieldView<T::V>;

    open spec fn view(&self) -> InputFieldView<T::V> {
        InputFieldView { title: self.title@, kind: self.kind, value: self.value@ }
    }
}

/// Clips an unbounded offset to what a `usize` can hold.
pub open spec fn spec_clip_usize(x: int) -> int {
    if x > usize::MAX {
        usize::MAX as int
    } else {
        x
    }
}

/// The caret offset of a labeled field: for enum fields the caret parks at
/// the popup toggle, one column past the title; for all other kinds it parks
/// just past the rendered value, after the title and the `": "` separator.
pub open spec fn spec_cursor_offset<T: InputType>(v: InputFieldView<T::V>) -> int {
    if v.kind is Enum {
        spec_clip_usize(v.title.len() as int + 1)
    } else {
        spec_clip_usize(v.title.len() as int + T::spec_display(v.value).len() as int + 2)
    }
}

impl<T: InputType> InputField<T> {
    /// A field with the given title and a default cell.
    pub fn new(label: &str) -> (r: Self)
        ensures
            r@ == (InputFieldView {
                title: label@,
                kind: T::spec_kind(),
                value: T::spec_default(),
            }),
            T::spec_wf(r@.value),
    {
        Self { title: label.to_owned(), kind: T::kind(), value: T::default() }
    }

    /// A field with the given title and the given cell.
    pub fn new_with_value(label: &str, value: T) -> (r: Self)
        ensures
            r@ == (InputFieldView { title: label@, kind: T::spec_kind(), value: value@ }),
    {
        Self { title: label.to_owned(), kind: T::kind(), value }
    }

    /// The field's display title.
    pub fn title(&self) -> (r: String)
        ensures
            r@ == self@.title,
    {
        self.title.clone()
    }

    /// A shared borrow of the wrapped cell.
    pub fn field(&self) -> (r: &T)
        ensures
            r@ == self@.value,
    {
        &self.value
    }

    /// A mutable borrow of the wrapped cell.
    pub fn field_mut(&mut self) -> (r: &mut T)
        ensures
            r@ == old(self)@.value,
            final(self)@ == (InputFieldView { value: final(r)@, ..old(self)@ }),
    {
        &mut self.value
    }

    /// The live value of the wrapped cell.
    pub fn value(&self) -> (r: T::Value)
        ensures
            r@ == T::spec_value(self@.value),
    {
        self.value.value()
    }

    /// Sets the focus flag of the wrapped cell.
    pub fn set_focus(&mut self, focus: bool)
        requires
            T::spec_wf(old(self)@.value),
        ensures
            final(self)@ == (InputFieldView {
                value: T::spec_set_focus(old(self)@.value, focus),
                ..old(self)@
            }),
            T::spec_wf(final(self)@.value),
    {
        self.value.set_focus(focus);
    }

    /// Routes one key event to the wrapped cell.
    pub fn on_key(&mut self, key: Key)
        requires
            T::spec_wf(old(self)@.value),
        ensures
            final(self)@ == (InputFieldView {
                value: T::spec_on_key(old(self)@.value, key),
                ..old(self)@
            }),
            T::spec_wf(final(self)@.value),
    {
        self.value.on_key(key);
    }

    /// The horizontal caret offset from the field's rendered left edge.
    /// It is recomputed on every render, since the display text changes as
    /// the user types.
    pub fn cursor_offset(&self) -> (r: usize)
        ensures
            r == spec_cursor_offset::<T>(self@),
    {
        let t = self.title.as_str().unicode_len();
        if let InputFieldKind::Enum = self.kind {
            match t.checked_add(1) {
                Some(x) => x,
                None => usize::MAX,
            }
        } else {
            let d = self.value.to_string();
            let dl = d.as_str().unicode_len();
            let td = match t.checked_add(dl) {
                Some(x) => x,
                None => usize::MAX,
            };
            match td.checked_add(2) {
                Some(x) => x,
                None => usize::MAX,
            }
        }
    }
}

} // verus!

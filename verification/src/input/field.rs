//! The field collection: an ordered, heterogeneous sequence of labeled
//! fields, one tagged variant per cell kind.

use vstd::prelude::*;

use crate::input::boolfield::BoolField;
use crate::input::enumfield::EnumField;
use crate::input::enumfield::EnumFieldState;
use crate::input::enumfield::EnumFieldView;
use crate::input::floatfield::FloatField;
use crate::input::floatfield::FloatFieldView;
use crate::input::inputfield::spec_cursor_offset;
use crate::input::inputfield::InputField;
use crate::input::inputfield::InputFieldView;
use crate::input::inputfieldtype::InputType;
use crate::input::integerfield::IntegerField;
use crate::input::stringfield::StringField;
use crate::input::stringfield::StringFieldView;
use crate::input::value::Value;
use crate::input::value::Values;
use crate::input::value::ValueView;
use crate::key::Key;

verus! {

/// One labeled field of any of the five kinds.
#[derive(Clone, Debug)]
pub enum Field {
    Bool(InputField<BoolField>),
    Integer(InputField<IntegerField>),
    Float(InputField<FloatField>),
    String(InputField<StringField>),
    Enum(InputField<EnumField>),
}

/// The mathematical view of one labeled field.
pub enum FieldView {
    Bool(InputFieldView<BoolField>),
    Integer(InputFieldView<IntegerField>),
    Float(InputFieldView<FloatFieldView>),
    String(InputFieldView<StringFieldView>),
    Enum(InputFieldView<EnumFieldView>),
}

impl View for Field {
    type V = FieldView;

    open spec fn view(&self) -> FieldView {
        match self {
            Field::Bool(f) => FieldView::Bool(f@),
            Field::Integer(f) => FieldView::Integer(f@),
            Field::Float(f) => FieldView::Float(f@),
            Field::String(f) => FieldView::String(f@),
            Field::Enum(f) => FieldView::Enum(f@),
        }
    }
}

/// Well-formedness of one field: its cell is well-formed.
pub open spec fn spec_field_wf(f: FieldView) -> bool {
    match f {
        FieldView::Bool(lf) => BoolField::spec_wf(lf.value),
        FieldView::Integer(lf) => IntegerField::spec_wf(lf.value),
        FieldView::Float(lf) => FloatField::spec_wf(lf.value),
        FieldView::String(lf) => StringField::spec_wf(lf.value),
        FieldView::Enum(lf) => EnumField::spec_wf(lf.value),
    }
}

/// The field after one key event, routed to its cell.
pub open spec fn spec_field_on_key(f: FieldView, key: Key) -> FieldView {
    match f {
        FieldView::Bool(lf) => FieldView::Bool(
            InputFieldView { value: BoolField::spec_on_key(lf.value, key), ..lf },
        ),
        FieldView::Integer(lf) => FieldView::Integer(
            InputFieldView { value: IntegerField::spec_on_key(lf.value, key), ..lf },
        ),
        FieldView::Float(lf) => FieldView::Float(
            InputFieldView { value: FloatField::spec_on_key(lf.value, key), ..lf },
        ),
        FieldView::String(lf) => FieldView::String(
            InputFieldView { value: StringField::spec_on_key(lf.value, key), ..lf },
        ),
        FieldView::Enum(lf) => FieldView::Enum(
            InputFieldView { value: EnumField::spec_on_key(lf.value, key), ..lf },
        ),
    }
}

/// The field after its cell's focus flag is set.
pub open spec fn spec_field_set_focus(f: FieldView, focus: bool) -> FieldView {
    match f {
        FieldView::Bool(lf) => FieldView::Bool(
            InputFieldView { value: BoolField::spec_set_focus(lf.value, focus), ..lf },
        ),
        FieldView::Integer(lf) => FieldView::Integer(
            InputFieldView { value: IntegerField::spec_set_focus(lf.value, focus), ..lf },
        ),
        FieldView::Float(lf) => FieldView::Float(
            InputFieldView { value: FloatField::spec_set_focus(lf.value, focus), ..lf },
        ),
        FieldView::String(lf) => FieldView::String(
            InputFieldView { value: StringField::spec_set_focus(lf.value, focus), ..lf },
        ),
        FieldView::Enum(lf) => FieldView::Enum(
            InputFieldView { value: EnumField::spec_set_focus(lf.value, focus), ..lf },
        ),
    }
}

/// The value a field contributes to extraction: its title paired with its
/// cell's value.
pub open spec fn spec_field_value(f: FieldView) -> ValueView {
    match f {
        FieldView::Bool(lf) => ValueView::Bool(lf.title, lf.value.value),
        FieldView::Integer(lf) => ValueView::Integer(lf.title, lf.value.value),
        FieldView::Float(lf) => ValueView::Float(lf.title, lf.value.value_text),
        FieldView::String(lf) => ValueView::String(lf.title, lf.value.text),
        FieldView::Enum(lf) => ValueView::Enum(lf.title, lf.value.label),
    }
}

/// Whether the field's cell holds the focus flag.
pub open spec fn spec_field_focused(f: FieldView) -> bool {
    match f {
        FieldView::Bool(lf) => lf.value.focus,
        FieldView::Integer(lf) => lf.value.focus,
        FieldView::Float(lf) => lf.value.focus,
        FieldView::String(lf) => lf.value.focus,
        FieldView::Enum(lf) => lf.value.focus,
    }
}

/// The popup state of the field: expanded only for an enum field whose
/// popup is open.
pub open spec fn spec_field_enum_state(f: FieldView) -> EnumFieldState {
    match f {
        FieldView::Enum(lf) => lf.value.state,
        _ => EnumFieldState::Hidden,
    }
}

/// The caret offset of the field.
pub open spec fn spec_field_cursor_offset(f: FieldView) -> int {
    match f {
        FieldView::Bool(lf) => spec_cursor_offset::<BoolField>(lf),
        FieldView::Integer(lf) => spec_cursor_offset::<IntegerField>(lf),
        FieldView::Float(lf) => spec_cursor_offset::<FloatField>(lf),
        FieldView::String(lf) => spec_cursor_offset::<StringField>(lf),
        FieldView::Enum(lf) => spec_cursor_offset::<EnumField>(lf),
    }
}

impl Field {
    /// Routes one key event to the field's cell.
    pub fn on_key(&mut self, key: Key)
        requires
            spec_field_wf(old(self)@),
        ensures
            final(self)@ == spec_field_on_key(old(self)@, key),
            spec_field_wf(final(self)@),
    {
        match self {
            Field::Bool(f) => f.on_key(key),
            Field::Integer(f) => f.on_key(key),
            Field::Float(f) => f.on_key(key),
            Field::String(f) => f.on_key(key),
            Field::Enum(f) => f.on_key(key),
        }
    }

    /// Sets the focus flag of the field's cell.
    pub fn set_focus(&mut self, focus: bool)
        requires
            spec_field_wf(old(self)@),
        ensures
            final(self)@ == spec_field_set_focus(old(self)@, focus),
            spec_field_wf(final(self)@),
    {
        match self {
            Field::Bool(f) => f.set_focus(focus),
            Field::Integer(f) => f.set_focus(focus),
            Field::Float(f) => f.set_focus(focus),
            Field::String(f) => f.set_focus(focus),
            Field::Enum(f) => f.set_focus(focus),
        }
    }

    /// The value the field contributes to extraction.
    pub fn to_value(&self) -> (r: Value)
        ensures
            r@ == spec_field_value(self@),
    {
        match self {
            Field::Bool(f) => Value::Bool(f.title(), f.value()),
            Field::Integer(f) => Value::Integer(f.title(), f.value()),
            Field::Float(f) => Value::Float(f.title(), f.value()),
            Field::String(f) => Value::String(f.title(), f.value()),
            Field::Enum(f) => Value::Enum(f.title(), f.value()),
        }
    }

    /// The popup state of the field.
    pub fn enum_state(&self) -> (r: EnumFieldState)
        ensures
            r == spec_field_enum_state(self@),
    {
        match self {
            Field::Enum(f) => f.field().state(),
            _ => EnumFieldState::Hidden,
        }
    }

    /// The caret offset of the field.
    pub fn cursor_offset(&self) -> (r: usize)
        ensures
            r == spec_field_cursor_offset(self@),
    {
        match self {
            Field::Bool(f) => f.cursor_offset(),
            Field::Integer(f) => f.cursor_offset(),
            Field::Float(f) => f.cursor_offset(),
            Field::String(f) => f.cursor_offset(),
            Field::Enum(f) => f.cursor_offset(),
        }
    }
}

/// Well-formedness of a whole collection: every field is well-formed.
pub open spec fn spec_fields_wf(s: Seq<FieldView>) -> bool {
    forall|i: int| 0 <= i < s.len() ==> spec_field_wf(#[trigger] s[i])
}

/// The collection after focus is set exactly on index `idx` and cleared
/// everywhere else.
pub open spec fn spec_fields_set_focus(s: Seq<FieldView>, idx: int) -> Seq<FieldView> {
    Seq::new(s.len(), |i: int| spec_field_set_focus(s[i], i == idx))
}

/// The ordered extraction of a whole collection.
pub open spec fn spec_fields_values(s: Seq<FieldView>) -> Seq<ValueView> {
    s.map_values(|f: FieldView| spec_field_value(f))
}

/// An ordered, heterogeneous sequence of labeled fields.
#[derive(Clone, Debug)]
pub struct Fields(pub Vec<Field>);

impl View for Fields {
    type V = Seq<FieldView>;

    open spec fn view(&self) -> Seq<FieldView> {
        self.0@.map_values(|f: Field| f@)
    }
}

impl Fields {
    /// Wraps an ordered list of fields.
    pub fn new(values: Vec<Field>) -> (r: Self)
        ensures
            r@ == values@.map_values(|f: Field| f@),
    {
        Fields(values)
    }

    /// An empty collection.
    pub fn empty() -> (r: Self)
        ensures
            r@ == Seq::<FieldView>::empty(),
    {
        let r = Fields(Vec::new());
        proof {
            assert(r@ =~= Seq::<FieldView>::empty());
        }
        r
    }

    /// The number of fields.
    pub fn len(&self) -> (r: usize)
        ensures
            r == self@.len(),
    {
        self.0.len()
    }

    /// Whether the collection has no fields.
    pub fn is_empty(&self) -> (r: bool)
        ensures
            r == (self@.len() == 0),
    {
        self.0.is_empty()
    }

    /// The field at one position.
    pub fn get(&self, i: usize) -> (r: &Field)
        requires
            i < self@.len(),
        ensures
            r@ == self@[i as int],
    {
        &self.0[i]
    }

    /// Extracts the ordered sequence of named, typed values, one per
    /// field.
    pub fn values(&self) -> (r: Values)
        ensures
            r@ == spec_fields_values(self@),
    {
        let mut out: Vec<Value> = Vec::new();
        let mut i: usize = 0;
        while i < self.0.len()
            invariant
                i <= self.0.len(),
                out@.len() == i,
                forall|j: int| 0 <= j < i ==> (#[trigger] out@[j])@ == spec_field_value(self@[j]),
            decreases self.0.len() - i,
        {
            proof {
                assert(self@[i as int] == self.0@[i as int]@);
            }
            out.push(self.0[i].to_value());
            i = i + 1;
        }
        let r = Values::new(out);
        proof {
            assert forall|j: int| 0 <= j < self@.len() implies r@[j] == spec_fields_values(
                self@,
            )[j] by {
                assert(r@[j] == out@[j]@);
                assert(spec_fields_values(self@)[j] == spec_field_value(self@[j]));
            }
            assert(r@ =~= spec_fields_values(self@));
        }
        r
    }

    /// Routes one key event to the field at one position.
    pub fn field_on_key(&mut self, i: usize, key: Key)
        requires
            i < old(self)@.len(),
            spec_field_wf(old(self)@[i as int]),
        ensures
            final(self)@ == old(self)@.update(
                i as int,
                spec_field_on_key(old(self)@[i as int], key),
            ),
            spec_field_wf(final(self)@[i as int]),
    {
        let f = vstd::std_specs::vec::vec_index_mut(&mut self.0, i);
        f.on_key(key);
        proof {
            assert(self@ =~= old(self)@.update(
                i as int,
                spec_field_on_key(old(self)@[i as int], key),
            ));
        }
    }

    /// Clears focus on every field and sets it only on index `idx`.
    pub fn set_focus(&mut self, idx: usize)
        requires
            spec_fields_wf(old(self)@),
        ensures
            final(self)@ == spec_fields_set_focus(old(self)@, idx as int),
            spec_fields_wf(final(self)@),
            forall|j: int|
                0 <= j < final(self)@.len() ==> spec_field_focused(#[trigger] final(self)@[j]) == (
                j == idx),
    {
        let n = self.0.len();
        let mut i: usize = 0;
        while i < n
            invariant
                i <= n,
                n == self.0.len(),
                self@.len() == old(self)@.len(),
                forall|j: int|
                    0 <= j < i ==> #[trigger] self@[j] == spec_field_set_focus(
                        old(self)@[j],
                        j == idx,
                    ),
                forall|j: int| i <= j < n ==> #[trigger] self@[j] == old(self)@[j],
                spec_fields_wf(old(self)@),
            decreases n - i,
        {
            let ghost pre = self@;
            proof {
                assert(pre[i as int] == self.0@[i as int]@);
                assert(pre[i as int] == old(self)@[i as int]);
                assert(spec_field_wf(old(self)@[i as int]));
            }
            let f = vstd::std_specs::vec::vec_index_mut(&mut self.0, i);
            f.set_focus(i == idx);
            proof {
                assert forall|j: int| 0 <= j < n implies #[trigger] self@[j] == (if j == i {
                    spec_field_set_focus(old(self)@[j], j == idx)
                } else {
                    pre[j]
                }) by {
                    assert(self@[j] == self.0@[j]@);
                }
            }
            i = i + 1;
        }
        proof {
            assert forall|j: int| 0 <= j < self@.len() implies #[trigger] self@[j]
                == spec_fields_set_focus(old(self)@, idx as int)[j] by {}
            assert(self@ =~= spec_fields_set_focus(old(self)@, idx as int));
            assert forall|j: int| 0 <= j < self@.len() implies spec_field_focused(
                #[trigger] self@[j],
            ) == (j == idx) by {
                lemma_set_focus_focused(old(self)@[j], j == idx);
            }
            assert forall|j: int| 0 <= j < self@.len() implies spec_field_wf(
                #[trigger] self@[j],
            ) by {
                lemma_set_focus_focused(old(self)@[j], j == idx);
            }
        }
    }
}

/// Setting a cell's focus flag makes the field focused exactly when asked.
pub proof fn lemma_set_focus_focused(f: FieldView, focus: bool)
    ensures
        spec_field_focused(spec_field_set_focus(f, focus)) == focus,
        spec_field_wf(f) ==> spec_field_wf(spec_field_set_focus(f, focus)),
{
    match f {
        FieldView::Enum(lf) => {
            crate::input::enumfield::lemma_position_or_zero_in_range(lf.value.variants, lf.value.label);
        },
        _ => {},
    }
}

} // verus!

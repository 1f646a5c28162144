//! The enum cell: a field over any enumeration capability, with a
//! collapsed/expanded popup state machine.
//!
//! The cell caches the capability's labels at construction and works on
//! them alone, so one collection can mix fields over different
//! enumerations.  While expanded, a selection cursor moves over the labels
//! with wraparound; confirming selects the highlighted label, and
//! cancelling resets the value to the capability's default label (a
//! deliberate reset, not a revert to the previous value).

use vstd::prelude::*;

use crate::input::enumvariants::EnumVariants;
use crate::input::inputfield::InputFieldKind;
use crate::input::inputfieldtype::InputType;
use crate::key::Key;
use crate::text::str_eq;

verus! {

/// The activation state of the selection popup.
#[derive(Clone, Copy, Debug, PartialEq, Eq, Structural)]
pub enum EnumFieldState {
    /// Collapsed: only the current label is shown.
    Hidden,
    /// Expanded: the popup lists all labels with one selected.
    Active,
}

/// A field over an enumeration capability, holding the current label, the
/// cached variant labels, the default label, and the popup state.
#[derive(Clone, Debug, PartialEq)]
pub struct EnumField {
    pub state: EnumFieldState,
    pub focus: bool,
    pub value: String,
    pub variants: Vec<String>,
    pub default_label: String,
    pub selected_idx: usize,
}

/// The mathematical view of an enum cell.
pub struct EnumFieldView {
    pub state: EnumFieldState,
    pub focus: bool,
    pub label: Seq<char>,
    pub variants: Seq<Seq<char>>,
    pub default_label: Seq<char>,
    pub selected_idx: int,
}

impl View for EnumField {
    type V = EnumFieldView;

    open spec fn view(&self) -> EnumFieldView {
        EnumFieldView {
            state: self.state,
            focus: self.focus,
            label: self.value@,
            variants: self.variants@.map_values(|s: String| s@),
            default_label: self.default_label@,
            selected_idx: self.selected_idx as int,
        }
    }
}

/// The index of the first occurrence of `l` at or after `i`, or `-1`.
pub open spec fn spec_find_from(labels: Seq<Seq<char>>, l: Seq<char>, i: int) -> int
    decreases labels.len() - i,
{
    if i < 0 || i >= labels.len() {
        -1
    } else if labels[i] == l {
        i
    } else {
        spec_find_from(labels, l, i + 1)
    }
}

/// The position of `l` among the labels, or zero when absent.
pub open spec fn spec_position_or_zero(labels: Seq<Seq<char>>, l: Seq<char>) -> int {
    let f = spec_find_from(labels, l, 0);
    if f >= 0 {
        f
    } else {
        0
    }
}

/// A found index lies within the label range.
pub proof fn lemma_find_from_range(labels: Seq<Seq<char>>, l: Seq<char>, i: int)
    requires
        0 <= i,
    ensures
        spec_find_from(labels, l, i) == -1 || i <= spec_find_from(labels, l, i) < labels.len(),
    decreases labels.len() - i,
{
    if i < labels.len() {
        if labels[i] != l {
            lemma_find_from_range(labels, l, i + 1);
        }
    }
}

/// The selection position derived from any label is a valid index, or zero
/// when there are no labels.
pub proof fn lemma_position_or_zero_in_range(labels: Seq<Seq<char>>, l: Seq<char>)
    ensures
        0 <= spec_position_or_zero(labels, l),
        labels.len() > 0 ==> spec_position_or_zero(labels, l) < labels.len(),
        labels.len() == 0 ==> spec_position_or_zero(labels, l) == 0,
{
    lemma_find_from_range(labels, l, 0);
}

proof fn lemma_find_from_prefix(labels: Seq<Seq<char>>, l: Seq<char>, i: int)
    requires
        0 <= i <= labels.len(),
        forall|j: int| 0 <= j < i ==> labels[j] != l,
    ensures
        spec_find_from(labels, l, 0) == spec_find_from(labels, l, i),
    decreases i,
{
    if i > 0 {
        lemma_find_from_prefix(labels, l, i - 1);
        if i - 1 < labels.len() {
            assert(spec_find_from(labels, l, i - 1) == spec_find_from(labels, l, i));
        }
    }
}

fn find_position_or_zero(variants: &Vec<String>, label: &String) -> (r: usize)
    ensures
        r as int == spec_position_or_zero(
            variants@.map_values(|s: String| s@),
            label@,
        ),
        variants@.len() > 0 ==> (r as int) < variants@.len(),
        variants@.len() == 0 ==> r == 0,
{
    let ghost labels = variants@.map_values(|s: String| s@);
    let mut i: usize = 0;
    while i < variants.len()
        invariant
            i <= variants.len(),
            labels == variants@.map_values(|s: String| s@),
            labels.len() == variants@.len(),
            forall|j: int| 0 <= j < i ==> labels[j] != label@,
        decreases variants.len() - i,
    {
        if str_eq(variants[i].as_str(), label.as_str()) {
            proof {
                assert(labels[i as int] == variants@[i as int]@);
                lemma_find_from_prefix(labels, label@, i as int);
                assert(spec_find_from(labels, label@, i as int) == i as int);
            }
            return i;
        }
        proof {
            assert(labels[i as int] == variants@[i as int]@);
        }
        i = i + 1;
    }
    proof {
        lemma_find_from_prefix(labels, label@, labels.len() as int);
        assert(spec_find_from(labels, label@, labels.len() as int) == -1);
    }
    0
}

/// Well-formedness of an enum cell: while expanded with any variants, the
/// selection cursor is a valid index; without variants it stays at zero.
pub open spec fn spec_enum_wf(v: EnumFieldView) -> bool {
    &&& 0 <= v.selected_idx
    &&& v.variants.len() > 0 ==> v.selected_idx < v.variants.len()
    &&& v.variants.len() == 0 ==> v.selected_idx == 0
}

/// The cell after its focus flag is set: gaining focus re-derives the
/// selection cursor from the label matching the current value, defaulting
/// to zero when absent.
pub open spec fn spec_enum_set_focus(v: EnumFieldView, focus: bool) -> EnumFieldView {
    if focus {
        EnumFieldView {
            focus: true,
            selected_idx: spec_position_or_zero(v.variants, v.label),
            ..v
        }
    } else {
        EnumFieldView { focus: false, ..v }
    }
}

/// The cell after one key event.
///
/// While expanded: escape resets the value to the default label and
/// collapses; enter selects the highlighted label (or the default when
/// there are no variants) and collapses; `k` and `j` move the selection
/// cursor with wraparound, staying put when there are no variants.  While
/// collapsed, only `a` has an effect: it expands the popup after
/// re-deriving the selection cursor from the label matching the current
/// value, defaulting to zero when absent.
pub open spec fn spec_enum_on_key(v: EnumFieldView, key: Key) -> EnumFieldView {
    if v.state == EnumFieldState::Active {
        match key {
            Key::Esc => EnumFieldView {
                label: v.default_label,
                state: EnumFieldState::Hidden,
                ..v
            },
            Key::Enter => EnumFieldView {
                label: if 0 <= v.selected_idx < v.variants.len() {
                    v.variants[v.selected_idx]
                } else {
                    v.default_label
                },
                state: EnumFieldState::Hidden,
                ..v
            },
            Key::Char(c) => {
                if c == 'k' {
                    EnumFieldView {
                        selected_idx: if v.variants.len() == 0 {
                            v.selected_idx
                        } else if v.selected_idx == 0 {
                            v.variants.len() - 1
                        } else {
                            v.selected_idx - 1
                        },
                        ..v
                    }
                } else if c == 'j' {
                    EnumFieldView {
                        selected_idx: if v.variants.len() == 0 {
                            v.selected_idx
                        } else {
                            (v.selected_idx + 1) % (v.variants.len() as int)
                        },
                        ..v
                    }
                } else {
                    v
                }
            },
            _ => v,
        }
    } else if key == Key::Char('a') {
        EnumFieldView {
            state: EnumFieldState::Active,
            selected_idx: spec_position_or_zero(v.variants, v.label),
            ..v
        }
    } else {
        v
    }
}

/// The collapsed, unfocused cell a capability member constructs: its label
/// is current, the capability supplies the cached labels and the default
/// label, and the selection cursor sits at the current label's position.
pub open spec fn spec_enum_cell<E: EnumVariants>(value: E) -> EnumFieldView {
    EnumFieldView {
        state: EnumFieldState::Hidden,
        focus: false,
        label: value.spec_label(),
        variants: E::spec_variant_labels(),
        default_label: E::spec_default().spec_label(),
        selected_idx: spec_position_or_zero(E::spec_variant_labels(), value.spec_label()),
    }
}

impl EnumField {
    /// A cell over the given capability member: its label becomes the
    /// current value, its capability supplies the cached labels and the
    /// default label, and the selection cursor starts at the current
    /// label's position.
    pub fn from_capability<E: EnumVariants>(value: &E) -> (r: Self)
        ensures
            r@ == spec_enum_cell::<E>(*value),
            spec_enum_wf(r@),
    {
        let label = value.to_string();
        let variants = value.variants();
        let default_label = value.default().to_string();
        let selected_idx = find_position_or_zero(&variants, &label);
        EnumField {
            state: EnumFieldState::Hidden,
            focus: false,
            value: label,
            variants,
            default_label,
            selected_idx,
        }
    }

    /// The popup state.
    pub fn state(&self) -> (r: EnumFieldState)
        ensures
            r == self@.state,
    {
        self.state
    }

    /// Sets the popup state.
    pub fn set_state(&mut self, state: EnumFieldState)
        ensures
            final(self)@ == (EnumFieldView { state, ..old(self)@ }),
    {
        self.state = state;
    }

    /// Whether the popup is expanded.
    pub fn is_active(&self) -> (r: bool)
        ensures
            r == (self@.state == EnumFieldState::Active),
    {
        self.state == EnumFieldState::Active
    }

    /// The current label.
    pub fn value(&self) -> (r: String)
        ensures
            r@ == self@.label,
    {
        self.value.clone()
    }

    /// The current label as display text.
    pub fn to_string(&self) -> (r: String)
        ensures
            r@ == self@.label,
    {
        self.value.clone()
    }
}

impl InputType for EnumField {
    type Value = String;

    open spec fn spec_default() -> EnumFieldView {
        EnumFieldView {
            state: EnumFieldState::Hidden,
            focus: false,
            label: Seq::empty(),
            variants: Seq::empty(),
            default_label: Seq::empty(),
            selected_idx: 0,
        }
    }

    open spec fn spec_kind() -> InputFieldKind {
        InputFieldKind::Enum
    }

    open spec fn spec_wf(v: EnumFieldView) -> bool {
        spec_enum_wf(v)
    }

    open spec fn spec_value(v: EnumFieldView) -> Seq<char> {
        v.label
    }

    open spec fn spec_display(v: EnumFieldView) -> Seq<char> {
        v.label
    }

    open spec fn spec_set_focus(v: EnumFieldView, focus: bool) -> EnumFieldView {
        spec_enum_set_focus(v, focus)
    }

    open spec fn spec_on_key(v: EnumFieldView, key: Key) -> EnumFieldView {
        spec_enum_on_key(v, key)
    }

    fn default() -> (r: Self) {
        let r = EnumField {
            state: EnumFieldState::Hidden,
            focus: false,
            value: String::new(),
            variants: Vec::new(),
            default_label: String::new(),
            selected_idx: 0,
        };
        proof {
            assert(r.variants@.map_values(|s: String| s@) =~= Seq::<Seq<char>>::empty());
        }
        r
    }

    fn kind() -> (k: InputFieldKind) {
        InputFieldKind::Enum
    }

    fn value(&self) -> (r: String) {
        self.value.clone()
    }

    fn to_string(&self) -> (r: String) {
        self.value.clone()
    }

    fn set_focus(&mut self, focus: bool) {
        self.focus = focus;
        if focus {
            self.selected_idx = find_position_or_zero(&self.variants, &self.value);
        }
    }

    fn on_key(&mut self, key: Key) {
        if self.is_active() {
            match key {
                Key::Esc => {
                    self.value = self.default_label.clone();
                    self.set_state(EnumFieldState::Hidden);
                },
                Key::Enter => {
                    if self.selected_idx < self.variants.len() {
                        self.value = self.variants[self.selected_idx].clone();
                    } else {
                        self.value = self.default_label.clone();
                    }
                    self.set_state(EnumFieldState::Hidden);
                },
                Key::Char(c) => {
                    if c == 'k' {
                        if self.variants.len() > 0 {
                            if self.selected_idx == 0 {
                                self.selected_idx = self.variants.len() - 1;
                            } else {
                                self.selected_idx = self.selected_idx - 1;
                            }
                        }
                    } else if c == 'j' {
                        if self.variants.len() > 0 {
                            self.selected_idx = (self.selected_idx + 1) % self.variants.len();
                        }
                    }
                },
                _ => {},
            }
        } else if key == Key::Char('a') {
            self.selected_idx = find_position_or_zero(&self.variants, &self.value);
            self.set_state(EnumFieldState::Active);
        }
    }
}

} // verus!

//! The interface every editable cell satisfies.
//!
//! A cell owns one live value of some primitive kind, reacts to key events,
//! and renders itself as display text.  Each cell type describes its own
//! behaviour through spec functions over its view, so that the labeled field
//! and the form controller can state exact contracts generically.

use vstd::prelude::*;

use crate::input::inputfield::InputFieldKind;
use crate::key::Key;

verus! {

/// One editable cell: a live value of some kind plus its editing state.
///
/// The spec functions describe, over the cell's view, what each operation
/// does; the executable methods promise to follow them exactly.
pub trait InputType: View + Sized {
    /// The type of the live value the cell holds.
    type Value: View;

    /// The view of a freshly constructed default cell.
    spec fn spec_default() -> Self::V;

    /// The tag identifying this cell kind.
    spec fn spec_kind() -> InputFieldKind;

    /// Well-formedness of a cell view; constructors establish it and every
    /// operation preserves it.
    spec fn spec_wf(v: Self::V) -> bool;

    /// The view of the live value held by a cell with view `v`.
    spec fn spec_value(v: Self::V) -> <Self::Value as View>::V;

    /// The display text of a cell with view `v`.
    spec fn spec_display(v: Self::V) -> Seq<char>;

    /// The cell after its focus flag is set to `focus`.
    spec fn spec_set_focus(v: Self::V, focus: bool) -> Self::V;

    /// The cell after one key event.
    spec fn spec_on_key(v: Self::V, key: Key) -> Self::V;

    /// Constructs the default cell.
    fn default() -> (r: Self)
        ensures
            r@ == Self::spec_default(),
            Self::spec_wf(r@),
    ;

    /// The tag identifying this cell kind.
    fn kind() -> (k: InputFieldKind)
        ensures
            k == Self::spec_kind(),
    ;

    /// The live value the cell currently holds.
    fn value(&self) -> (r: Self::Value)
        ensures
            r@ == Self::spec_value(self@),
    ;

    /// The display text of the cell.
    fn to_string(&self) -> (r: String)
        ensures
            r@ == Self::spec_display(self@),
    ;

    /// Sets the focus flag; pure bookkeeping.
    fn set_focus(&mut self, focus: bool)
        requires
            Self::spec_wf(old(self)@),
        ensures
            final(self)@ == Self::spec_set_focus(old(self)@, focus),
            Self::spec_wf(final(self)@),
    ;

    /// Reacts to one key event.
    fn on_key(&mut self, key: Key)
        requires
            Self::spec_wf(old(self)@),
        ensures
            final(self)@ == Self::spec_on_key(old(self)@, key),
            Self::spec_wf(final(self)@),
    ;
}

} // verus!

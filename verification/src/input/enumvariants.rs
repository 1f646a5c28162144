//! The enumeration capability: the contract any closed set of named
//! variants satisfies to plug into the form engine.
//!
//! The engine itself never depends on a concrete enumeration type; it works
//! on the labels the capability exposes.  Each implementation carries two
//! proof obligations: label resolution is total (an unrecognised label
//! yields the default), and resolution round-trips (a variant's own label
//! yields that variant back).

use vstd::prelude::*;

verus! {

/// A closed, ordered set of named variants with a current member.
///
/// `spec_from_label` is each implementation's mathematical description of
/// label resolution; `from_string` promises to follow it exactly, and the
/// two lemmas pin its behaviour down for every label.
pub trait EnumVariants: Sized {
    /// The display label of this member.
    spec fn spec_label(&self) -> Seq<char>;

    /// The ordered labels of all variants.
    spec fn spec_variant_labels() -> Seq<Seq<char>>;

    /// The default member.
    spec fn spec_default() -> Self;

    /// The member a label resolves to.
    spec fn spec_from_label(s: Seq<char>) -> Self;

    /// The longest variant label, used to size the selection popup.
    spec fn spec_longest() -> Seq<char>;

    /// The current member's label as display text.
    fn to_string(&self) -> (r: String)
        ensures
            r@ == self.spec_label(),
    ;

    /// The default member.
    fn default(&self) -> (r: Self)
        ensures
            r == Self::spec_default(),
    ;

    /// The longest variant label.
    fn longest(&self) -> (r: String)
        ensures
            r@ == Self::spec_longest(),
    ;

    /// The ordered labels of all variants, for display and cyclic
    /// selection.
    fn variants(&self) -> (r: Vec<String>)
        ensures
            r@.map_values(|s: String| s@) == Self::spec_variant_labels(),
    ;

    /// Reconstructs a member from a display label.  Total: every string
    /// resolves to some member.
    fn from_string(&self, s: String) -> (r: Self)
        ensures
            r == Self::spec_from_label(s@),
    ;

    /// Duplicates the current member.
    fn clone_box(&self) -> (r: Self)
        ensures
            r == *self,
    ;

    /// Label resolution is total: a label that is not among the variant
    /// labels resolves to the default member.
    proof fn lemma_from_label_total(s: Seq<char>)
        ensures
            !Self::spec_variant_labels().contains(s) ==> Self::spec_from_label(s)
                == Self::spec_default(),
    ;

    /// Label resolution round-trips: a member's own label resolves to that
    /// member.
    proof fn lemma_from_label_round_trip(v: Self)
        ensures
            Self::spec_from_label(v.spec_label()) == v,
    ;
}

/// Total label resolution: for every string and every enumeration
/// capability, a label that is not among the variant labels resolves to
/// the capability's default member, never an error.
pub proof fn lemma_total_label_resolution<E: EnumVariants>(s: Seq<char>)
    ensures
        !E::spec_variant_labels().contains(s) ==> E::spec_from_label(s) == E::spec_default(),
{
    E::lemma_from_label_total(s);
}

/// Round-trip resolution: for every member of every enumeration
/// capability, the member's own label resolves back to that member.
pub proof fn lemma_label_round_trip<E: EnumVariants>(v: E)
    ensures
        E::spec_from_label(v.spec_label()) == v,
{
    E::lemma_from_label_round_trip(v);
}

/// The capability with no variants, used by fields constructed without one.
#[derive(Clone, Copy, Debug, PartialEq, Eq, Structural)]
pub enum EmptyEnum {
    Empty,
}

impl EnumVariants for EmptyEnum {
    open spec fn spec_label(&self) -> Seq<char> {
        Seq::empty()
    }

    open spec fn spec_variant_labels() -> Seq<Seq<char>> {
        Seq::empty()
    }

    open spec fn spec_default() -> EmptyEnum {
        EmptyEnum::Empty
    }

    open spec fn spec_from_label(s: Seq<char>) -> EmptyEnum {
        EmptyEnum::Empty
    }

    open spec fn spec_longest() -> Seq<char> {
        Seq::empty()
    }

    fn to_string(&self) -> (r: String) {
        String::new()
    }

    fn default(&self) -> (r: Self) {
        EmptyEnum::Empty
    }

    fn longest(&self) -> (r: String) {
        String::new()
    }

    fn variants(&self) -> (r: Vec<String>) {
        let r: Vec<String> = Vec::new();
        proof {
            assert(r@.map_values(|s: String| s@) =~= Seq::<Seq<char>>::empty());
        }
        r
    }

    fn from_string(&self, s: String) -> (r: Self) {
        EmptyEnum::Empty
    }

    fn clone_box(&self) -> (r: Self) {
        *self
    }

    proof fn lemma_from_label_total(s: Seq<char>) {
    }

    proof fn lemma_from_label_round_trip(v: Self) {
    }
}

} // verus!

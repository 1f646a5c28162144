//! The checksum algorithm used to verify a finished backup.

use vstd::prelude::*;
use vstd::string::StringExecFns;

use crate::input::enumvariants::EnumVariants;
use crate::text::str_eq;

verus! {

/// The checksum algorithm used to verify a finished backup.
#[derive(Clone, Copy, Debug, PartialEq, Eq, Structural)]
pub enum HashAlgorithm {
    Sha256,
}

impl EnumVariants for HashAlgorithm {
    open spec fn spec_label(&self) -> Seq<char> {
        match self {
            HashAlgorithm::Sha256 => "Sha256"@,
        }
    }

    open spec fn spec_variant_labels() -> Seq<Seq<char>> {
        seq!["Sha256"@]
    }

    open spec fn spec_default() -> HashAlgorithm {
        HashAlgorithm::Sha256
    }

    open spec fn spec_from_label(s: Seq<char>) -> HashAlgorithm {
        if s == "Sha256"@ {
            HashAlgorithm::Sha256
        } else {
            HashAlgorithm::Sha256
        }
    }

    open spec fn spec_longest() -> Seq<char> {
        "Sha256"@
    }

    fn to_string(&self) -> (r: String) {
        match self {
            HashAlgorithm::Sha256 => String::from_str("Sha256"),
        }
    }

    fn default(&self) -> (r: Self) {
        HashAlgorithm::Sha256
    }

    fn longest(&self) -> (r: String) {
        String::from_str("Sha256")
    }

    fn variants(&self) -> (r: Vec<String>) {
        let mut v: Vec<String> = Vec::new();
        v.push(String::from_str("Sha256"));
        proof {
            assert(v@.map_values(|s: String| s@) =~= Self::spec_variant_labels());
        }
        v
    }

    fn from_string(&self, s: String) -> (r: Self) {
        if str_eq(s.as_str(), "Sha256") {
            HashAlgorithm::Sha256
        } else {
            HashAlgorithm::Sha256
        }
    }

    fn clone_box(&self) -> (r: Self) {
        *self
    }

    proof fn lemma_from_label_total(s: Seq<char>) {
        let labs = Self::spec_variant_labels();
        if !labs.contains(s) {
            if s == "Sha256"@ {
                assert(labs[0] == s);
                assert(labs.contains(s));
            }
        }
    }

    proof fn lemma_from_label_round_trip(v: Self) {
        reveal_strlit("Sha256");
    }
}

} // verus!

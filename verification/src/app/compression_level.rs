//! How hard the compressor works on a backup archive.

use vstd::prelude::*;
use vstd::string::StringExecFns;

use crate::input::enumvariants::EnumVariants;
use crate::text::str_eq;

verus! {

/// How hard the compressor works on a backup archive.
#[derive(Clone, Copy, Debug, PartialEq, Eq, Structural)]
pub enum CompressionLevel {
    Standard,
    Best,
}

impl EnumVariants for CompressionLevel {
    open spec fn spec_label(&self) -> Seq<char> {
        match self {
            CompressionLevel::Standard => "Default"@,
            CompressionLevel::Best => "Best"@,
        }
    }

    open spec fn spec_variant_labels() -> Seq<Seq<char>> {
        seq!["Default"@, "Best"@]
    }

    open spec fn spec_default() -> CompressionLevel {
        CompressionLevel::Standard
    }

    open spec fn spec_from_label(s: Seq<char>) -> CompressionLevel {
        if s == "Default"@ {
            CompressionLevel::Standard
        } else if s == "Best"@ {
            CompressionLevel::Best
        } else {
            CompressionLevel::Standard
        }
    }

    open spec fn spec_longest() -> Seq<char> {
        "Default"@
    }

    fn to_string(&self) -> (r: String) {
        match self {
            CompressionLevel::Standard => String::from_str("Default"),
            CompressionLevel::Best => String::from_str("Best"),
        }
    }

    fn default(&self) -> (r: Self) {
        CompressionLevel::Standard
    }

    fn longest(&self) -> (r: String) {
        String::from_str("Default")
    }

    fn variants(&self) -> (r: Vec<String>) {
        let mut v: Vec<String> = Vec::new();
        v.push(String::from_str("Default"));
        v.push(String::from_str("Best"));
        proof {
            assert(v@.map_values(|s: String| s@) =~= Self::spec_variant_labels());
        }
        v
    }

    fn from_string(&self, s: String) -> (r: Self) {
        if str_eq(s.as_str(), "Default") {
            CompressionLevel::Standard
        } else if str_eq(s.as_str(), "Best") {
            CompressionLevel::Best
        } else {
            CompressionLevel::Standard
        }
    }

    fn clone_box(&self) -> (r: Self) {
        *self
    }

    proof fn lemma_from_label_total(s: Seq<char>) {
        let labs = Self::spec_variant_labels();
        if !labs.contains(s) {
            if s == "Default"@ {
                assert(labs[0] == s);
                assert(labs.contains(s));
            }
            if s == "Best"@ {
                assert(labs[1] == s);
                assert(labs.contains(s));
            }
        }
    }

    proof fn lemma_from_label_round_trip(v: Self) {
        reveal_strlit("Default");
        reveal_strlit("Best");
        assert("Best"@.len() == 4 && "Default"@.len() == 7);
        assert("Best"@ != "Default"@);
    }
}

} // verus!

//! The compression mode applied to a backup archive.

use vstd::prelude::*;
use vstd::string::StringExecFns;

use crate::input::enumvariants::EnumVariants;
use crate::text::str_eq;

verus! {

/// The compression mode applied to a backup archive.
#[derive(Clone, Copy, Debug, PartialEq, Eq, Structural)]
pub enum CompressionKind {
    NoCompression,
    Zip,
}

impl EnumVariants for CompressionKind {
    open spec fn spec_label(&self) -> Seq<char> {
        match self {
            CompressionKind::NoCompression => "None"@,
            CompressionKind::Zip => "Zip"@,
        }
    }

    open spec fn spec_variant_labels() -> Seq<Seq<char>> {
        seq!["None"@, "Zip"@]
    }

    open spec fn spec_default() -> CompressionKind {
        CompressionKind::NoCompression
    }

    open spec fn spec_from_label(s: Seq<char>) -> CompressionKind {
        if s == "None"@ {
            CompressionKind::NoCompression
        } else if s == "Zip"@ {
            CompressionKind::Zip
        } else {
            CompressionKind::NoCompression
        }
    }

    open spec fn spec_longest() -> Seq<char> {
        "None"@
    }

    fn to_string(&self) -> (r: String) {
        match self {
            CompressionKind::NoCompression => String::from_str("None"),
            CompressionKind::Zip => String::from_str("Zip"),
        }
    }

    fn default(&self) -> (r: Self) {
        CompressionKind::NoCompression
    }

    fn longest(&self) -> (r: String) {
        String::from_str("None")
    }

    fn variants(&self) -> (r: Vec<String>) {
        let mut v: Vec<String> = Vec::new();
        v.push(String::from_str("None"));
        v.push(String::from_str("Zip"));
        proof {
            assert(v@.map_values(|s: String| s@) =~= Self::spec_variant_labels());
        }
        v
    }

    fn from_string(&self, s: String) -> (r: Self) {
        if str_eq(s.as_str(), "None") {
            CompressionKind::NoCompression
        } else if str_eq(s.as_str(), "Zip") {
            CompressionKind::Zip
        } else {
            CompressionKind::NoCompression
        }
    }

    fn clone_box(&self) -> (r: Self) {
        *self
    }

    proof fn lemma_from_label_total(s: Seq<char>) {
        let labs = Self::spec_variant_labels();
        if !labs.contains(s) {
            if s == "None"@ {
                assert(labs[0] == s);
                assert(labs.contains(s));
            }
            if s == "Zip"@ {
                assert(labs[1] == s);
                assert(labs.contains(s));
            }
        }
    }

    proof fn lemma_from_label_round_trip(v: Self) {
        reveal_strlit("None");
        reveal_strlit("Zip");
        assert("Zip"@.len() == 3 && "None"@.len() == 4);
        assert("Zip"@ != "None"@);
    }
}

} // verus!

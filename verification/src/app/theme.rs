//! The colour theme of the user interface.

use vstd::prelude::*;
use vstd::string::StringExecFns;

use crate::input::enumvariants::EnumVariants;
use crate::text::str_eq;

verus! {

/// The colour theme of the user interface.
#[derive(Clone, Copy, Debug, PartialEq, Eq, Structural)]
pub enum Theme {
    Dark,
    Kanagawa,
    Nord,
    Dracula,
    TokyoNight,
}

impl EnumVariants for Theme {
    open spec fn spec_label(&self) -> Seq<char> {
        match self {
            Theme::Dark => "Dark"@,
            Theme::Kanagawa => "Kanagawa"@,
            Theme::Nord => "Nord"@,
            Theme::Dracula => "Dracula"@,
            Theme::TokyoNight => "TokyoNight"@,
        }
    }

    open spec fn spec_variant_labels() -> Seq<Seq<char>> {
        seq!["Dark"@, "Kanagawa"@, "Nord"@, "Dracula"@, "TokyoNight"@]
    }

    open spec fn spec_default() -> Theme {
        Theme::Dark
    }

    open spec fn spec_from_label(s: Seq<char>) -> Theme {
        if s == "Dark"@ {
            Theme::Dark
        } else if s == "Kanagawa"@ {
            Theme::Kanagawa
        } else if s == "Nord"@ {
            Theme::Nord
        } else if s == "Dracula"@ {
            Theme::Dracula
        } else if s == "TokyoNight"@ {
            Theme::TokyoNight
        } else {
            Theme::Dark
        }
    }

    open spec fn spec_longest() -> Seq<char> {
        "TokyoNight"@
    }

    fn to_string(&self) -> (r: String) {
        match self {
            Theme::Dark => String::from_str("Dark"),
            Theme::Kanagawa => String::from_str("Kanagawa"),
            Theme::Nord => String::from_str("Nord"),
            Theme::Dracula => String::from_str("Dracula"),
            Theme::TokyoNight => String::from_str("TokyoNight"),
        }
    }

    fn default(&self) -> (r: Self) {
        Theme::Dark
    }

    fn longest(&self) -> (r: String) {
        String::from_str("TokyoNight")
    }

    fn variants(&self) -> (r: Vec<String>) {
        let mut v: Vec<String> = Vec::new();
        v.push(String::from_str("Dark"));
        v.push(String::from_str("Kanagawa"));
        v.push(String::from_str("Nord"));
        v.push(String::from_str("Dracula"));
        v.push(String::from_str("TokyoNight"));
        proof {
            assert(v@.map_values(|s: String| s@) =~= Self::spec_variant_labels());
        }
        v
    }

    fn from_string(&self, s: String) -> (r: Self) {
        if str_eq(s.as_str(), "Dark") {
            Theme::Dark
        } else if str_eq(s.as_str(), "Kanagawa") {
            Theme::Kanagawa
        } else if str_eq(s.as_str(), "Nord") {
            Theme::Nord
        } else if str_eq(s.as_str(), "Dracula") {
            Theme::Dracula
        } else if str_eq(s.as_str(), "TokyoNight") {
            Theme::TokyoNight
        } else {
            Theme::Dark
        }
    }

    fn clone_box(&self) -> (r: Self) {
        *self
    }

    proof fn lemma_from_label_total(s: Seq<char>) {
        let labs = Self::spec_variant_labels();
        if !labs.contains(s) {
            if s == "Dark"@ {
                assert(labs[0] == s);
                assert(labs.contains(s));
            }
            if s == "Kanagawa"@ {
                assert(labs[1] == s);
                assert(labs.contains(s));
            }
            if s == "Nord"@ {
                assert(labs[2] == s);
                assert(labs.contains(s));
            }
            if s == "Dracula"@ {
                assert(labs[3] == s);
                assert(labs.contains(s));
            }
            if s == "TokyoNight"@ {
                assert(labs[4] == s);
                assert(labs.contains(s));
            }
        }
    }

    proof fn lemma_from_label_round_trip(v: Self) {
        reveal_strlit("Dark");
        reveal_strlit("Kanagawa");
        reveal_strlit("Nord");
        reveal_strlit("Dracula");
        reveal_strlit("TokyoNight");
        assert("Kanagawa"@.len() == 8 && "Dark"@.len() == 4);
        assert("Kanagawa"@ != "Dark"@);
        assert("Nord"@[0] == 'N' && "Dark"@[0] == 'D');
        assert("Nord"@ != "Dark"@);
        assert("Nord"@.len() == 4 && "Kanagawa"@.len() == 8);
        assert("Nord"@ != "Kanagawa"@);
        assert("Dracula"@.len() == 7 && "Dark"@.len() == 4);
        assert("Dracula"@ != "Dark"@);
        assert("Dracula"@.len() == 7 && "Kanagawa"@.len() == 8);
        assert("Dracula"@ != "Kanagawa"@);
        assert("Dracula"@.len() == 7 && "Nord"@.len() == 4);
        assert("Dracula"@ != "Nord"@);
        assert("TokyoNight"@.len() == 10 && "Dark"@.len() == 4);
        assert("TokyoNight"@ != "Dark"@);
        assert("TokyoNight"@.len() == 10 && "Kanagawa"@.len() == 8);
        assert("TokyoNight"@ != "Kanagawa"@);
        assert("TokyoNight"@.len() == 10 && "Nord"@.len() == 4);
        assert("TokyoNight"@ != "Nord"@);
        assert("TokyoNight"@.len() == 10 && "Dracula"@.len() == 7);
        assert("TokyoNight"@ != "Dracula"@);
    }
}

} // verus!

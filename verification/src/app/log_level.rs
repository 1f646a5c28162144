//! The verbosity of the application log.

use vstd::prelude::*;
use vstd::string::StringExecFns;

use crate::input::enumvariants::EnumVariants;
use crate::text::str_eq;

verus! {

/// The verbosity of the application log.
#[derive(Clone, Copy, Debug, PartialEq, Eq, Structural)]
pub enum LogLevel {
    Error,
    Warn,
    Info,
    Debug,
    Trace,
}

impl EnumVariants for LogLevel {
    open spec fn spec_label(&self) -> Seq<char> {
        match self {
            LogLevel::Error => "Error"@,
            LogLevel::Warn => "Warn"@,
            LogLevel::Info => "Info"@,
            LogLevel::Debug => "Debug"@,
            LogLevel::Trace => "Trace"@,
        }
    }

    open spec fn spec_variant_labels() -> Seq<Seq<char>> {
        seq!["Error"@, "Warn"@, "Info"@, "Debug"@, "Trace"@]
    }

    open spec fn spec_default() -> LogLevel {
        LogLevel::Info
    }

    open spec fn spec_from_label(s: Seq<char>) -> LogLevel {
        if s == "Error"@ {
            LogLevel::Error
        } else if s == "Warn"@ {
            LogLevel::Warn
        } else if s == "Info"@ {
            LogLevel::Info
        } else if s == "Debug"@ {
            LogLevel::Debug
        } else if s == "Trace"@ {
            LogLevel::Trace
        } else {
            LogLevel::Info
        }
    }

    open spec fn spec_longest() -> Seq<char> {
        "Error"@
    }

    fn to_string(&self) -> (r: String) {
        match self {
            LogLevel::Error => String::from_str("Error"),
            LogLevel::Warn => String::from_str("Warn"),
            LogLevel::Info => String::from_str("Info"),
            LogLevel::Debug => String::from_str("Debug"),
            LogLevel::Trace => String::from_str("Trace"),
        }
    }

    fn default(&self) -> (r: Self) {
        LogLevel::Info
    }

    fn longest(&self) -> (r: String) {
        String::from_str("Error")
    }

    fn variants(&self) -> (r: Vec<String>) {
        let mut v: Vec<String> = Vec::new();
        v.push(String::from_str("Error"));
        v.push(String::from_str("Warn"));
        v.push(String::from_str("Info"));
        v.push(String::from_str("Debug"));
        v.push(String::from_str("Trace"));
        proof {
            assert(v@.map_values(|s: String| s@) =~= Self::spec_variant_labels());
        }
        v
    }

    fn from_string(&self, s: String) -> (r: Self) {
        if str_eq(s.as_str(), "Error") {
            LogLevel::Error
        } else if str_eq(s.as_str(), "Warn") {
            LogLevel::Warn
        } else if str_eq(s.as_str(), "Info") {
            LogLevel::Info
        } else if str_eq(s.as_str(), "Debug") {
            LogLevel::Debug
        } else if str_eq(s.as_str(), "Trace") {
            LogLevel::Trace
        } else {
            LogLevel::Info
        }
    }

    fn clone_box(&self) -> (r: Self) {
        *self
    }

    proof fn lemma_from_label_total(s: Seq<char>) {
        let labs = Self::spec_variant_labels();
        if !labs.contains(s) {
            if s == "Error"@ {
                assert(labs[0] == s);
                assert(labs.contains(s));
            }
            if s == "Warn"@ {
                assert(labs[1] == s);
                assert(labs.contains(s));
            }
            if s == "Info"@ {
                assert(labs[2] == s);
                assert(labs.contains(s));
            }
            if s == "Debug"@ {
                assert(labs[3] == s);
                assert(labs.contains(s));
            }
            if s == "Trace"@ {
                assert(labs[4] == s);
                assert(labs.contains(s));
            }
        }
    }

    proof fn lemma_from_label_round_trip(v: Self) {
        reveal_strlit("Error");
        reveal_strlit("Warn");
        reveal_strlit("Info");
        reveal_strlit("Debug");
        reveal_strlit("Trace");
        assert("Warn"@.len() == 4 && "Error"@.len() == 5);
        assert("Warn"@ != "Error"@);
        assert("Info"@.len() == 4 && "Error"@.len() == 5);
        assert("Info"@ != "Error"@);
        assert("Info"@[0] == 'I' && "Warn"@[0] == 'W');
        assert("Info"@ != "Warn"@);
        assert("Debug"@[0] == 'D' && "Error"@[0] == 'E');
        assert("Debug"@ != "Error"@);
        assert("Debug"@.len() == 5 && "Warn"@.len() == 4);
        assert("Debug"@ != "Warn"@);
        assert("Debug"@.len() == 5 && "Info"@.len() == 4);
        assert("Debug"@ != "Info"@);
        assert("Trace"@[0] == 'T' && "Error"@[0] == 'E');
        assert("Trace"@ != "Error"@);
        assert("Trace"@.len() == 5 && "Warn"@.len() == 4);
        assert("Trace"@ != "Warn"@);
        assert("Trace"@.len() == 5 && "Info"@.len() == 4);
        assert("Trace"@ != "Info"@);
        assert("Trace"@[0] == 'T' && "Debug"@[0] == 'D');
        assert("Trace"@ != "Debug"@);
    }
}

} // verus!

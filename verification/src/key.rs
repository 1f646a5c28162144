//! The logical key event delivered to the engine.
//!
//! The engine reacts to one discrete key per call.  The surrounding
//! application turns whatever backend event it reads into this type
//! before handing it to the library; every key the engine does not
//! distinguish maps to `Key::Other`.

use vstd::prelude::*;

verus! {

/// One logical keyboard event: a printable character or one of the control
/// keys the engine reacts to.
#[derive(Clone, Copy, Debug, PartialEq, Eq, Structural)]
pub enum Key {
    /// A character key, carrying the character that was typed.
    Char(char),
    /// The backspace key.
    Backspace,
    /// The enter key, used to confirm.
    Enter,
    /// The escape key, used to cancel.
    Esc,
    /// The tab key, used to advance focus.
    Tab,
    /// Any key the engine does not distinguish.
    Other,
}

} // verus!

//! The value-extraction model: an ordered sequence of named, typed values,
//! one per field, independent of rendering.
//!
//! Enum fields contribute their current label as a string, and float
//! fields contribute the text of their last good parse, so the consumer
//! needs no knowledge of any concrete enumeration type and no binary
//! float crosses this boundary.

use vstd::prelude::*;

verus! {

/// One extracted value: the field's name paired with its typed value.
#[derive(Clone, Debug, PartialEq)]
pub enum Value {
    /// A boolean field's name and value.
    Bool(String, bool),
    /// An integer field's name and value.
    Integer(String, i64),
    /// A float field's name and the text of its last good parse.
    Float(String, String),
    /// A string field's name and text.
    String(String, String),
    /// An enum field's name and current label.
    Enum(String, String),
}

/// The mathematical view of one extracted value.
pub enum ValueView {
    Bool(Seq<char>, bool),
    Integer(Seq<char>, i64),
    Float(Seq<char>, Seq<char>),
    String(Seq<char>, Seq<char>),
    Enum(Seq<char>, Seq<char>),
}

impl View for Value {
    type V = ValueView;

    open spec fn view(&self) -> ValueView {
        match self {
            Value::Bool(name, b) => ValueView::Bool(name@, *b),
            Value::Integer(name, i) => ValueView::Integer(name@, *i),
            Value::Float(name, t) => ValueView::Float(name@, t@),
            Value::String(name, s) => ValueView::String(name@, s@),
            Value::Enum(name, l) => ValueView::Enum(name@, l@),
        }
    }
}

/// The ordered extraction result of a whole field collection.
#[derive(Clone, Debug, PartialEq)]
pub struct Values(pub Vec<Value>);

impl View for Values {
    type V = Seq<ValueView>;

    open spec fn view(&self) -> Seq<ValueView> {
        self.0@.map_values(|v: Value| v@)
    }
}

impl Values {
    /// Wraps an ordered list of extracted values.
    pub fn new(values: Vec<Value>) -> (r: Self)
        ensures
            r@ == values@.map_values(|v: Value| v@),
    {
        Values(values)
    }

    /// The number of extracted values.
    pub fn len(&self) -> (r: usize)
        ensures
            r == self@.len(),
    {
        self.0.len()
    }

    /// The extracted value at one position.
    pub fn get(&self, i: usize) -> (r: &Value)
        requires
            i < self@.len(),
        ensures
            r@ == self@[i as int],
    {
        &self.0[i]
    }
}

} // verus!

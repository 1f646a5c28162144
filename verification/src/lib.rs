//! A keyboard-driven, typed form-input engine for terminal applications.
//!
//! The crate provides editable cells for boolean, integer, float and string
//! values, an open capability interface for closed enumerations, labeled
//! fields, an ordered heterogeneous field collection, a value-extraction
//! model, and a form controller with a submit/cancel lifecycle.

pub mod app;
pub mod input;
pub mod key;
pub mod sanup;
pub mod text;

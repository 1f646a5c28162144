//! The form-input engine: typed cells, the enumeration capability, labeled
//! fields, the field collection, value extraction, and the form controller.

pub mod boolfield;
pub mod enumfield;
pub mod enumvariants;
pub mod field;
pub mod floatfield;
pub mod inputfield;
pub mod inputfieldtype;
pub mod inputform;
pub mod inputlist;
pub mod integerfield;
pub mod stringfield;
pub mod value;

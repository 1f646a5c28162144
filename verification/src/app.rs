//! The application layer: the concrete enumerations the form engine edits,
//! the tab and focus state machines, the settings record, and the
//! application controller.

pub mod compression_kind;
pub mod focus;
pub mod tabs;
pub mod compression_level;
pub mod hash_algorithm;
pub mod log_level;
pub mod sanup;
pub mod settings;
pub mod theme;

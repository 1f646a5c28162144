//! An earlier generation of the application shell's state machines, kept
//! alongside the current one.

pub mod focus;
pub mod state;
pub mod tabs;

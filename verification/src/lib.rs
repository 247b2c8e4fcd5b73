//! Control core of a desktop clipboard-utility tray application.
//!
//! The crate owns the decisions of the native layer: translating textual
//! key and modifier names into a hotkey binding, swapping the registered
//! global hotkey with rollback on failure, deciding show/hide/focus
//! transitions for the auxiliary window or panel, extracting provenance
//! metadata from a clipboard HTML snapshot, and dispatching tray events.
//! The operating-system services themselves (hotkey registration, the
//! window, the clipboard) are reached through port traits that the host
//! process implements; scripted in-crate implementations of the same
//! ports back the test suite.

pub mod commands;
pub mod hotkey;
pub mod keycodes;
pub mod policy;
pub mod provenance;
pub mod tally;
pub mod text;
pub mod tray;
pub mod visibility;

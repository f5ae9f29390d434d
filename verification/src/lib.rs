//! Core of a minimal text editor: a document buffer with a cursor, an
//! optional file path, a last-error slot, and the state machine that reacts
//! to user events by updating that state and scheduling file work.
//!
//! Everything here is plain data and decisions. The surrounding program
//! owns the window, the native file dialogs and the filesystem calls; it
//! feeds their outcomes back in as events.

pub mod decimal;
pub mod document;
pub mod editor;
pub mod error;
pub mod fileops;
pub mod status;

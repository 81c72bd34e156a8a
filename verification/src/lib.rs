//! Command dispatch, file navigation and unsaved-change tracking for a
//! markdown editing session.
//!
//! The crate holds the decisions of the editor and none of its input or
//! output: every operation takes the session by exclusive reference and
//! answers with the effect that the host has to carry out.

pub mod actions;
pub mod command;
pub mod editor;
pub mod error;
pub mod files;
pub mod hotkeys;
pub mod order;
pub mod panel;
pub mod path;
pub mod session;
pub mod text;
pub mod trusted;

//! Core of an interactive terminal navigator for cluster administration:
//! cursor-based selection lists, a debounced preview policy, and the
//! navigation state machine that routes key events between screens and
//! escalates backend failures into user-visible messages.
//!
//! All input, rendering and process handling live outside this crate; the
//! functions here work on plain values and are fully specified.

pub mod selection;
pub mod session;
pub mod controller;
pub mod parse;
mod text;

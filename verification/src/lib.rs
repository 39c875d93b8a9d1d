//! Don't Speak inside Herdr: a label with the voice status for each pane, and a popup
//! that mirrors the dictation.
//!
//! The library decides and computes; it touches no process, file, clock or terminal.
//! Where work alternates with decisions, a state says what is to be done next
//! (`action`), and a function takes in what came of it and gives the next state.

pub mod bridge;
pub mod bridge_loop;
pub mod command;
pub mod dictation;
pub mod dontspeak;
pub mod herdr;
pub mod instance;
pub mod laws;
pub mod model;
pub mod ordered;
pub mod text;

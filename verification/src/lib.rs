//! A text viewer widget for character-grid user interfaces.
//!
//! The widget keeps the lines of a text in memory and renders the ones that
//! fit its viewport into a single string of cursor movements, attribute
//! resets and width-clamped text, ready to be written to a terminal.

pub mod coordinates;
pub mod lines;
pub mod render;
pub mod term;
pub mod textview;
pub mod widget;

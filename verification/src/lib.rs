//! A scripted, branching dialogue engine: text is revealed one character at a
//! time, wrapped to a fixed width without splitting words, and advanced through
//! a graph of dialogue nodes selected by key presses.
//!
//! All lengths and coordinates are whole display units. The engine draws
//! nothing and reads no keyboard: it takes one tick at a time, with the key
//! pressed since the last one, and holds the lines to show.
//!
//! The modules, leaves first:
//! - [`vector`]: positions;
//! - [`error`]: what can be wrong with a setup;
//! - [`words`]: whitespace, words and their sizes;
//! - [`text_queue`]: the source that hands a text out character by character;
//! - [`textbox`]: the lines that fill from such a source, and wrap;
//! - [`wrapping`]: what holds of every text box as it fills;
//! - [`dialogue`]: one dialogue of a script, and what a key decides there;
//! - [`screen`]: the script, the current dialogue and the history;
//! - [`navigation`]: what holds of every conversation;
//! - [`stats`], [`command`], [`edge`], [`matrix`], [`gui`]: the other parts
//!   of the terminal window;
//! - [`strings`]: what is taken on trust of the standard library's strings.

pub mod command;
pub mod dialogue;
pub mod edge;
pub mod error;
pub mod gui;
pub mod matrix;
pub mod navigation;
pub mod screen;
pub mod stats;
pub mod strings;
pub mod text_queue;
pub mod textbox;
pub mod vector;
pub mod words;
pub mod wrapping;

pub use dialogue::{Decision, Dialogue, Key};
pub use screen::{DialogueState, Screen, Tick};
pub use text_queue::TextQueue;
pub use error::ConfigError;
pub use textbox::TextBox;
pub use vector::Point2D;

//! Decision core of a single-window desktop shell.
//!
//! The shell keeps one always-on-top window and brings it to the foreground
//! when a global keyboard shortcut is pressed. Everything that touches the
//! operating system is left to the caller; this crate decides *what* is to be
//! done and in which order, and proves that those decisions are the intended
//! ones for every possible run.

pub mod activation;
pub mod binding;
pub mod registry;
pub mod startup;

//! Verified core of a small full-screen file viewer.
//!
//! The crate holds no I/O. A host program feeds it what it read from the
//! terminal and the file system, and carries out the terminal commands that
//! the core hands back.

pub mod buffer;
pub mod editor;
pub mod terminal;
pub mod terminal_view;

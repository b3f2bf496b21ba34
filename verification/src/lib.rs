//! Terminal input for an interactive line editor on POSIX systems.
//!
//! The library turns the characters that arrive from a terminal in raw mode
//! into key presses, derives the raw line discipline from the one a terminal
//! currently has, and keeps the small amount of state that a terminal session
//! needs. It performs no system call itself: the caller reads, polls and
//! applies, and hands the outcome of each step to the library.

pub mod keys;
pub mod error;
pub mod sequence;
pub mod reader;
pub mod capability;
pub mod codepoint;
pub mod resize;
pub mod mode;
pub mod stdin;
pub mod terminal;

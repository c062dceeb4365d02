//! Session engine of a terminal typing test: the reference text, the
//! wrapped layout of that text, the keystroke state machine and the
//! statistics of a finished session.

pub mod helpers;
pub mod expected_input;
pub mod layout;
pub mod stats;
pub mod runner;
pub mod corpus;
pub mod history;
pub mod help_window;
pub mod args;

//! What the operations of the library promise, stated over calls of them.
//!
//! A law takes what a call was given and what it returned, and says how the two relate, or how
//! the results of several calls do.

pub mod reports;
pub mod runs;
pub mod subcommands;
pub mod texts;
pub mod tools;

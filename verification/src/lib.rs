//! Core of a small interactive command shell: a quoting-aware tokenizer, a
//! builder that turns tokens into a structured command, the builtin command
//! routines, and a dispatcher that decides how each parsed line is executed.
//!
//! Everything that computes lives here with a verified contract; reading
//! input lines, touching the file system and spawning processes are left to
//! the surrounding binary, which consumes the decisions made here.

pub mod builtins;
pub mod command;
pub mod dispatch;
pub mod os;
pub mod parser;
pub mod strutil;

//! Recognition of interactive-fiction game formats from a file's bytes and
//! name, so that a launcher can pick the interpreter that runs it.
pub mod config;
pub mod detect;
pub mod launcher;
pub mod theorems;

//! Builds one shell statement, an `alias` or an `export` assignment, from a
//! name and a list of items, and decides step by step whether and where the
//! statement is appended to a file.
//!
//! The crate itself performs no I/O. Reading the environment, probing the
//! file system and appending to a file are requested from the caller as
//! [`run::Action`]s; the caller answers each request and is told what to do
//! next.

pub mod command;
pub mod error;
pub mod laws;
pub mod method;
pub mod persist;
pub mod run;

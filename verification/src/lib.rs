//! Test-harness context for exercising a dynamically loaded PHP extension
//! against a real interpreter binary, isolated from the machine's global
//! interpreter configuration.
//!
//! The crate discovers the interpreter's active configuration (through probe
//! commands run by the embedding application), merges it into one
//! configuration blob, synthesises an ephemeral configuration file that adds
//! a directive loading the extension under test, and builds a subprocess
//! invocation that uses only that ephemeral file.

pub mod context;
pub mod discovery;
pub mod ephemeral;
pub mod fpm;
pub mod text;

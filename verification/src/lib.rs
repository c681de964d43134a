//! Turns a compiled freestanding kernel binary into a bootable disk image and
//! runs it under an emulator, classifying each run as success, failure or
//! timeout.
//!
//! The crate is organised along the pipeline: resolving the bootloader
//! dependency from the package graph, deriving the bootloader build
//! configuration, assembling the block-aligned disk image, and decoding the
//! emulator's exit-code protocol into verdicts.

pub mod args;
pub mod builder;
pub mod cargo_config;
pub mod command;
pub mod config;
pub mod metadata;
pub mod paths;
pub mod run;
pub mod strutil;
pub mod suite;
pub mod tester;
pub mod toml_value;

use vstd::prelude::*;

verus! {

/// A plain error message, used by the argument parsers.
#[derive(Debug)]
pub struct ErrorMessage {
    /// The message text.
    pub message: String,
}

impl ErrorMessage {
    /// Wraps a message text.
    pub fn new(message: String) -> (r: Self)
        ensures
            r.message@ == message@,
    {
        ErrorMessage { message }
    }
}

} // verus!

//! Binding and job-execution layer for a native image-generation engine.
//!
//! The engine itself, the file system and the application shell are reached
//! by the caller. This crate holds the rules: who owns the engine handle and
//! when it may be lent or released, how image buffers are checked on their
//! way to and from the engine, and which step a job takes next.

pub mod dispatch;
pub mod image_data;
pub mod init;
pub mod job;
pub mod llm;
pub mod owner;
pub mod params;

use vstd::prelude::*;
use vstd::string::StringExecFns;

verus! {

/// Greets `name`.
pub fn greet(name: &str) -> (greeting: String)
    ensures
        greeting@ == "Hello, "@ + name@ + "! You've been greeted from Rust!"@,
{
    "Hello, ".to_owned().concat(name).concat("! You've been greeted from Rust!")
}

} // verus!

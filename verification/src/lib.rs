//! Verified core of a Rust binding to the `pdfnative` shared PDF engine.
//!
//! The engine itself is reached through a C interface that is loaded at run
//! time; what this crate holds is everything the binding decides on its own:
//! which native entry point an operation reports in its error, how a Rust
//! string is turned into a C string, how a status code or a returned handle
//! is judged, how handles are created lazily and released once, how a table
//! row is staged cell by cell, and which sibling libraries are preloaded.

pub mod calls;
pub mod error;
pub mod text;
pub mod status;
pub mod handle;
pub mod args;
pub mod row;
pub mod siblings;

pub use calls::NativeCall;
pub use error::Error;

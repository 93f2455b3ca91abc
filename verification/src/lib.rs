//! Command-line front end for a file compression tool.
//!
//! The core of the crate is a verified argument parser: a single left-to-right
//! scan over the invocation tokens (the program path included) that produces a
//! validated [`config::Config`] naming the requested operation, the input file
//! path and an optional output file path.  The whole scan is specified as a
//! pure state machine over sequences of characters, and the executable parser
//! is proved to return exactly what that state machine computes.

pub mod config;
pub mod laws;
pub mod parser;
pub mod token;

//! Command-line handling for a Julia-set image generator.
//!
//! The rendering kernel works in floating point and lives with the program;
//! this library holds the verified decisions on the command line: which
//! arguments are required, how unsigned integers are read, and which
//! defaults apply.
pub mod decimal;
pub mod config;

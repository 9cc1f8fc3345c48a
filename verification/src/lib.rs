//! Verified core of a binding to the Binaryen WebAssembly optimizer: codegen
//! configuration, the plan of calls that configures Binaryen's pass options,
//! validation of optimization pass names, and the conversions between Rust
//! strings and the NUL-terminated strings that the C interface takes.

pub mod config;
pub mod cstring;
pub mod passes;
pub mod options;
pub mod functions;

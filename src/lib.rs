//! Version-aware dispatch of contract lifecycle calls into a sandboxed
//! WebAssembly module: which export to call, with which arguments, and what
//! its result means.

pub mod api_version;
pub mod engine;
pub mod errors;

//! Build-time code generation for DDS IDL data types.
//!
//! The library turns a list of IDL source paths into a build plan (one
//! compiler invocation per source, a derived native library name, the
//! generated native source names), fixes the symbol-inclusion policy for
//! FFI binding generation, extracts topic-descriptor symbols from
//! generated binding source, and renders one trait-implementation block
//! per descriptor into an append-only output stream.

pub mod config;
pub mod emit;
pub mod extract;
pub mod loader;
pub mod plan;
pub mod policy;

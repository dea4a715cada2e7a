//! Generates C header fragments for a crate's foreign-function boundary.
//!
//! The library walks the module tree of a crate (and of every crate it
//! references), picks out the functions and structures that are annotated
//! for export across the C boundary, and renders each as a C declaration.
//! Parsing source text and touching the file system are left to the caller;
//! the library works on a structural model of the declarations and decides,
//! step by step, which files the caller should read next.

pub mod ast;
pub mod extract;
pub mod paths;
pub mod resolve;

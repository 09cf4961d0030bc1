//! A library for serving a filesystem subtree as an executable
//! request-routing structure.
//!
//! Each URL path segment names a directory layer under a base directory.
//! The deepest layer resolves to a terminal stage: a static file, an
//! executable that becomes a child-process pipeline stage, or an error.
//! Exit codes of stages are remapped to HTTP status codes through a fixed
//! table, and a failing stage re-enters resolution at a truncated path to
//! look for an error document.
//!
//! The library holds the decision logic, fully verified. The surrounding
//! binary performs the irreducible effects (spawning children, opening
//! files, HTTP transport) and feeds their results back into the verified
//! continuations defined here.

pub mod text;
pub mod codes;
pub mod state;
pub mod stage;
pub mod walk;
pub mod response;
pub mod resolve;
pub mod params;

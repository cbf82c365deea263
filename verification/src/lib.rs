//! Directory-to-secrets-store synchronizer library.
//!
//! Scans of a directory tree yield file paths; each file's content is
//! normalized to canonical JSON and uploaded to a secret store under a key
//! derived from the file's containing directory. This crate holds the
//! verified core: path-to-key mapping, payload normalization, and target URL
//! construction. The I/O around it (directory walking, file reads, the HTTP
//! POST) lives outside the library.

pub mod config;
pub mod errors;
pub mod normalize;
pub mod paths;
pub mod pipeline;
pub mod scan;
pub mod strings;
pub mod target;

use vstd::prelude::*;

verus! {

} // verus!

//! Verified core of a single-asset audio acquisition tool.
//!
//! The library holds the pieces with real invariants: a magic-number
//! file-type detector over byte prefixes, the staged acquisition pipeline
//! with its artifact lifecycle, the path-safety rules for archive
//! extraction, a progress-reporting abstraction, and the pure text
//! helpers used by the surrounding shell.

pub mod extract;
pub mod pipeline;
pub mod progress;
pub mod signature;
pub mod signature_props;
pub mod text;

//! Export of a project manifest as tool-facing metadata.
//!
//! A manifest (package identity, dependency list, directory layout) is either
//! handed back untouched, for rendering in the native configuration format, or
//! transformed into a normalized metadata document whose dependency list is
//! split into remote (git) and local (path) entries.
pub mod manifest;
pub mod partition;
pub mod metadata;

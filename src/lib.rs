//! Generation of native bindings for two targets from one declaration: a flat
//! C-style export and a hosted-runtime entry point. The crate classifies each
//! parameter, lays out both entry points, builds the type-code signature of
//! the hosted descriptor, flattens structured results into fixed runs of
//! machine words, decides how marshaling failures surface as exceptions, and
//! drives a fail-fast registration at attach.

pub mod binding;
pub mod bridge;
pub mod emit;
pub mod flatten;
pub mod marshal;
pub mod records;
pub mod registry;
pub mod slices;

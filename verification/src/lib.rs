//! Build-time configuration pipeline for a search index derive.
//!
//! Declarative metadata attached to a data type and its fields is turned
//! into a validated configuration descriptor and then into a tree-shaped
//! description of the provider implementation that a rendering front end
//! turns into source text.

pub mod attrs;
pub mod builder;
pub mod emit;
pub mod laws;
pub mod model;
pub mod naming;

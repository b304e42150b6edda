//! Variant table generation for enumeration types.
//!
//! Given a structural description of an enumeration (its name and its ordered
//! list of variants, each with a field shape), this library derives the
//! auxiliary artifacts an enum commonly needs: the variant count, total
//! mappings between variants and dense integer ordinals, reconstruction of a
//! default-filled variant from an ordinal, an enumeration of all variants,
//! and a table of human-readable variant names.

pub mod descriptor;
pub mod names;
pub mod render;
pub mod table;

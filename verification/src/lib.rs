//! Offset-based field views over externally defined binary layouts.
//!
//! A schema names a set of fields, each with an explicit byte offset and an
//! access mode: a direct (unaligned) load, a pointer reinterpretation of the
//! computed address, or bounds-checked indexing into an array of pointers.
//! Schema construction validates every field declaration; a view instance
//! then binds the resulting accessors to a single base address, owning
//! nothing and costing one machine word.

pub mod access;
pub mod schema;
pub mod view;

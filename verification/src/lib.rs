//! Accessors for foreign dispatch tables.
//!
//! A declaration lists the members of a foreign object: data members, which
//! describe its layout, and callable members, each of which stands for one
//! entry of the object's dispatch table. The library validates the directives
//! attached to the callable members, resolves the table slot of each of them,
//! describes the record type and the accessors that stand for the
//! declaration, and writes them out as source text.
//!
//! Everything here is computed on plain values. A caller that holds tokens
//! turns them into a [`model::Declaration`], and the text of
//! [`render::render`] back into tokens.

pub mod text;
pub mod literal;
pub mod model;
pub mod directive;
pub mod slots;
pub mod slot_laws;
pub mod error;
pub mod emit;
pub mod emit_laws;
pub mod render;

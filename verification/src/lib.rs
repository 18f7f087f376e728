//! Build-time composition of a persistence protocol for structured aggregates.
//!
//! An aggregate is a struct whose fields are themselves persistable views over
//! a key-value context. Given a model of such a declaration (an ordered field
//! list and the generic parameters, see [`schema`]), this crate composes the
//! fields' individual `load`, `rollback`, `flush`, `delete`, `clear`, `save`,
//! `write_delete` and `hash` behaviors into whole-aggregate operations and
//! emits them as source text.
//!
//! The invariants that the composition preserves are stated as contracts:
//! every field is loaded under a base key derived from its declaration
//! position (so sibling fields never collide in key space), every composed
//! operation walks the fields in declaration order, and the aggregate digest
//! absorbs the field digests in that same order.

pub mod bundles;
pub mod container_code;
pub mod digest;
pub mod model;
pub mod hash_code;
pub mod render;
pub mod schema;
pub mod view_code;

pub use schema::DeriveError;
pub use schema::Field;
pub use schema::FieldDecl;
pub use schema::GenericParam;
pub use schema::Schema;
pub use schema::StructDecl;
pub use schema::TypeShape;

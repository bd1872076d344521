//! Derivation of vertex attribute descriptors from the schema of a
//! fixed-layout record.

pub mod text;
pub mod modifier;
pub mod diagnostic;
pub mod attrib;
pub mod layout;
pub mod schema;
pub mod vertex;

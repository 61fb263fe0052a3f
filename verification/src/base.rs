//! Leaf building blocks shared by the rest of the library: the identifier
//! type and the field-name and field-path types used to address values in a
//! context payload.

pub mod context;
pub mod id;

pub use id::ID;
pub use context::{FieldName, FieldPath};

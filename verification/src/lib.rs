//! Field ids for the schemas of files that were written without them.
//!
//! A table format tells the columns of a file apart by numeric field ids. Files that other
//! systems wrote carry no ids, only column names. A [`NameMapping`] says which id goes with which
//! name, and [`apply_name_mapping`] puts the ids into the metadata of a schema's fields, at every
//! depth of nesting.
//!
//! - [`schema`]: data types, fields and schemas
//! - [`metadata`]: key/value metadata
//! - [`mapping`]: name mappings and how a name is found in them
//! - [`keys`]: the metadata key of field ids and the names of the parts of nested columns
//! - [`decimal`]: field ids as text
//! - [`resolve`]: what it means to apply a mapping
//! - [`visitor`]: the visitor that does it, one field at a time
//! - [`apply`]: the visit of a whole schema
//! - [`laws`]: what holds of every mapped schema
//! - [`type_laws`]: what holds of each kind of type
//! - [`visitor_laws`]: what holds of each step of the visitor
//! - [`view_laws`]: what schemas and mappings stand for

#![allow(unused_imports)]

pub mod apply;
pub mod decimal;
pub mod keys;
pub mod laws;
pub mod mapping;
pub mod metadata;
pub mod resolve;
pub mod schema;
pub mod type_laws;
pub mod view_laws;
pub mod visitor;
pub mod visitor_laws;

pub use apply::apply_name_mapping;
pub use mapping::{MappedField, NameMapping};
pub use metadata::Metadata;
pub use resolve::Error;
pub use schema::{DataType, Field, Schema};
pub use visitor::{ApplyNameMappingVisitor, FieldInfo, RootMappingAdapter};

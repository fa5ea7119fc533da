//! Generation of dialect-specific SQL statements from a declarative
//! description of database objects.
//!
//! Objects are plain values ([`sql::DBObject`]); a dialect is anything that
//! implements [`sql::TypeWriter`]; a [`Processor`] turns an ordered list of
//! objects into the ordered list of statements. Objects and field
//! descriptions are kept in YAML documents ([`document`]); a [`Loader`]
//! reads the objects of one.
//!
//! Every executable function carries a contract over the
//! sequence-of-characters model of the text it reads or produces. YAML
//! text is parsed and written by `serde_yaml` and `yaml_merge_keys`; the
//! few functions that call them are in [`document::yaml`] and are the
//! only ones whose contracts are taken on trust.

pub mod assign;
pub mod document;
pub mod generators;
pub mod sql;
pub mod text;
pub mod tools;
pub mod type_writers;

pub use tools::Loader;
pub use tools::Processor;

//! The object model: field descriptions, object paths, the renderable
//! database objects, and the dialect trait that every renderer consults.

pub mod constraint;
pub mod dialect;
pub mod field;
pub mod object;
pub mod path;
pub mod permission;
pub mod schema;
pub mod table;

pub use dialect::TypeWriter;
pub use field::{Field, FieldAttributes, FieldAttributesView, FieldType, FieldView, Fields};
pub use path::{ObjectPath, ObjectPathView, ObjectType};
pub use permission::{Grant, GrantType, GrantView, Owner, OwnerView};
pub use schema::{Schema, SchemaView};
pub use constraint::{
    FKOn, FieldNames, ForeignKey, ForeignKeyView, ForeignKeys, Index, IndexView, Indexes, KeyView,
    PrimaryKey, UniqueKey,
};
pub use table::{Table, TableError, TableErrorView, TableView};
pub use object::{DBObject, DBObjectView};

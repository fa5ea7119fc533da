//! The dialect strategy: what a target SQL engine calls each column type,
//! how it writes a path, and which statements it has at all.

use vstd::prelude::*;
use crate::sql::field::FieldType;
use crate::sql::path::{ObjectPath, ObjectPathView};

verus! {

/// A target SQL dialect. Each executable method is tied to a specification
/// function of the same dialect, which is what the renderers' contracts use.
pub trait TypeWriter {
    /// Short name of the dialect.
    spec fn spec_id(&self) -> Seq<char>;

    fn id(&self) -> (s: &str)
        ensures
            s@ == self.spec_id(),
    ;

    /// The dialect's name of a column type.
    spec fn spec_field_type(&self, field_type: FieldType) -> Seq<char>;

    fn field_type(&self, field_type: &FieldType) -> (s: String)
        ensures
            s@ == self.spec_field_type(*field_type),
    ;

    /// How the dialect writes a path.
    spec fn spec_schema(&self, op: ObjectPathView) -> Seq<char>;

    fn schema(&self, op: &ObjectPath) -> (s: String)
        ensures
            s@ == self.spec_schema(op@),
    ;

    /// The index-method clause that follows the table in `CREATE INDEX`.
    spec fn spec_index_type(&self) -> Seq<char>;

    fn index_type(&self) -> (s: String)
        ensures
            s@ == self.spec_index_type(),
    ;

    /// Whether the dialect has `CREATE SCHEMA`.
    spec fn spec_supports_schemas(&self) -> bool;

    fn supports_schemas(&self) -> (b: bool)
        ensures
            b == self.spec_supports_schemas(),
    ;

    /// Whether the dialect has `GRANT` and `ALTER ... OWNER`.
    spec fn spec_supports_permissions(&self) -> bool;

    fn supports_permissions(&self) -> (b: bool)
        ensures
            b == self.spec_supports_permissions(),
    ;

    /// Whether an auto-increment column may be named in a `PRIMARY KEY`
    /// constraint.
    spec fn spec_supports_auto_increment(&self) -> bool;

    fn supports_auto_increment(&self) -> (b: bool)
        ensures
            b == self.spec_supports_auto_increment(),
    ;

    /// Whether the dialect has sequence objects.
    spec fn spec_supports_sequences(&self) -> bool;

    fn supports_sequences(&self) -> (b: bool)
        ensures
            b == self.spec_supports_sequences(),
    ;
}

} // verus!

//! The built-in dialects: PostgreSQL, MySQL and SQLite.

use vstd::prelude::*;
use crate::sql::dialect::TypeWriter;
use crate::sql::field::FieldType;
use crate::sql::path::{ObjectPath, ObjectPathView};

verus! {

/// PostgreSQL: every capability, paths written `schema.name`.
#[derive(Debug)]
pub struct Postgresql {}

impl TypeWriter for Postgresql {
    open spec fn spec_id(&self) -> Seq<char> {
        "pgsql"@
    }

    fn id(&self) -> (s: &str) {
        "pgsql"
    }

    open spec fn spec_field_type(&self, field_type: FieldType) -> Seq<char> {
        match field_type {
            FieldType::Int => "int"@,
            FieldType::BigInt => "bigint"@,
            FieldType::Txt => "text"@,
            FieldType::Bool => "bool"@,
            FieldType::Dbl => "double precision"@,
            FieldType::AutoInc => "serial"@,
        }
    }

    fn field_type(&self, field_type: &FieldType) -> (s: String) {
        match field_type {
            FieldType::Int => "int".to_owned(),
            FieldType::BigInt => "bigint".to_owned(),
            FieldType::Txt => "text".to_owned(),
            FieldType::Bool => "bool".to_owned(),
            FieldType::Dbl => "double precision".to_owned(),
            FieldType::AutoInc => "serial".to_owned(),
        }
    }

    open spec fn spec_schema(&self, op: ObjectPathView) -> Seq<char> {
        op.qualified()
    }

    fn schema(&self, op: &ObjectPath) -> (s: String) {
        op.full_name()
    }

    open spec fn spec_index_type(&self) -> Seq<char> {
        " USING btree"@
    }

    fn index_type(&self) -> (s: String) {
        " USING btree".to_owned()
    }

    open spec fn spec_supports_schemas(&self) -> bool {
        true
    }

    fn supports_schemas(&self) -> (b: bool) {
        true
    }

    open spec fn spec_supports_permissions(&self) -> bool {
        true
    }

    fn supports_permissions(&self) -> (b: bool) {
        true
    }

    open spec fn spec_supports_auto_increment(&self) -> bool {
        true
    }

    fn supports_auto_increment(&self) -> (b: bool) {
        true
    }

    open spec fn spec_supports_sequences(&self) -> bool {
        true
    }

    fn supports_sequences(&self) -> (b: bool) {
        true
    }
}

/// MySQL: as PostgreSQL but without sequence objects.
#[derive(Debug)]
pub struct Mysql {}

impl TypeWriter for Mysql {
    open spec fn spec_id(&self) -> Seq<char> {
        "mysql"@
    }

    fn id(&self) -> (s: &str) {
        "mysql"
    }

    open spec fn spec_field_type(&self, field_type: FieldType) -> Seq<char> {
        match field_type {
            FieldType::Int => "int"@,
            FieldType::BigInt => "bigint"@,
            FieldType::Txt => "text"@,
            FieldType::Bool => "bit"@,
            FieldType::Dbl => "double"@,
            FieldType::AutoInc => "integer auto_increment"@,
        }
    }

    fn field_type(&self, field_type: &FieldType) -> (s: String) {
        match field_type {
            FieldType::Int => "int".to_owned(),
            FieldType::BigInt => "bigint".to_owned(),
            FieldType::Txt => "text".to_owned(),
            FieldType::Bool => "bit".to_owned(),
            FieldType::Dbl => "double".to_owned(),
            FieldType::AutoInc => "integer auto_increment".to_owned(),
        }
    }

    open spec fn spec_schema(&self, op: ObjectPathView) -> Seq<char> {
        op.qualified()
    }

    fn schema(&self, op: &ObjectPath) -> (s: String) {
        op.full_name()
    }

    open spec fn spec_index_type(&self) -> Seq<char> {
        " USING btree"@
    }

    fn index_type(&self) -> (s: String) {
        " USING btree".to_owned()
    }

    open spec fn spec_supports_schemas(&self) -> bool {
        true
    }

    fn supports_schemas(&self) -> (b: bool) {
        true
    }

    open spec fn spec_supports_permissions(&self) -> bool {
        true
    }

    fn supports_permissions(&self) -> (b: bool) {
        true
    }

    open spec fn spec_supports_auto_increment(&self) -> bool {
        true
    }

    fn supports_auto_increment(&self) -> (b: bool) {
        true
    }

    open spec fn spec_supports_sequences(&self) -> bool {
        false
    }

    fn supports_sequences(&self) -> (b: bool) {
        false
    }
}

/// SQLite: no schemas, permissions or sequences; paths are bare names and
/// an auto-increment column declares its own primary key.
#[derive(Debug)]
pub struct Sqlite {}

impl TypeWriter for Sqlite {
    open spec fn spec_id(&self) -> Seq<char> {
        "sqlite"@
    }

    fn id(&self) -> (s: &str) {
        "sqlite"
    }

    open spec fn spec_field_type(&self, field_type: FieldType) -> Seq<char> {
        match field_type {
            FieldType::Int => "integer"@,
            FieldType::BigInt => "integer"@,
            FieldType::Txt => "text"@,
            FieldType::Bool => "integer"@,
            FieldType::Dbl => "real"@,
            FieldType::AutoInc => "integer primary key autoincrement"@,
        }
    }

    fn field_type(&self, field_type: &FieldType) -> (s: String) {
        match field_type {
            FieldType::Int => "integer".to_owned(),
            FieldType::BigInt => "integer".to_owned(),
            FieldType::Txt => "text".to_owned(),
            FieldType::Bool => "integer".to_owned(),
            FieldType::Dbl => "real".to_owned(),
            FieldType::AutoInc => "integer primary key autoincrement".to_owned(),
        }
    }

    open spec fn spec_schema(&self, op: ObjectPathView) -> Seq<char> {
        op.name
    }

    fn schema(&self, op: &ObjectPath) -> (s: String) {
        op.name.clone()
    }

    open spec fn spec_index_type(&self) -> Seq<char> {
        Seq::empty()
    }

    fn index_type(&self) -> (s: String) {
        String::new()
    }

    open spec fn spec_supports_schemas(&self) -> bool {
        false
    }

    fn supports_schemas(&self) -> (b: bool) {
        false
    }

    open spec fn spec_supports_permissions(&self) -> bool {
        false
    }

    fn supports_permissions(&self) -> (b: bool) {
        false
    }

    open spec fn spec_supports_auto_increment(&self) -> bool {
        false
    }

    fn supports_auto_increment(&self) -> (b: bool) {
        false
    }

    open spec fn spec_supports_sequences(&self) -> bool {
        false
    }

    fn supports_sequences(&self) -> (b: bool) {
        false
    }
}

/// A boxed dialect is the dialect it holds, so that the choice of dialect
/// can be made while the program runs.
impl<T: TypeWriter + ?Sized> TypeWriter for Box<T> {
    open spec fn spec_id(&self) -> Seq<char> {
        (**self).spec_id()
    }

    fn id(&self) -> (s: &str) {
        (**self).id()
    }

    open spec fn spec_field_type(&self, field_type: FieldType) -> Seq<char> {
        (**self).spec_field_type(field_type)
    }

    fn field_type(&self, field_type: &FieldType) -> (s: String) {
        (**self).field_type(field_type)
    }

    open spec fn spec_schema(&self, op: ObjectPathView) -> Seq<char> {
        (**self).spec_schema(op)
    }

    fn schema(&self, op: &ObjectPath) -> (s: String) {
        (**self).schema(op)
    }

    open spec fn spec_index_type(&self) -> Seq<char> {
        (**self).spec_index_type()
    }

    fn index_type(&self) -> (s: String) {
        (**self).index_type()
    }

    open spec fn spec_supports_schemas(&self) -> bool {
        (**self).spec_supports_schemas()
    }

    fn supports_schemas(&self) -> (b: bool) {
        (**self).supports_schemas()
    }

    open spec fn spec_supports_permissions(&self) -> bool {
        (**self).spec_supports_permissions()
    }

    fn supports_permissions(&self) -> (b: bool) {
        (**self).supports_permissions()
    }

    open spec fn spec_supports_auto_increment(&self) -> bool {
        (**self).spec_supports_auto_increment()
    }

    fn supports_auto_increment(&self) -> (b: bool) {
        (**self).supports_auto_increment()
    }

    open spec fn spec_supports_sequences(&self) -> bool {
        (**self).spec_supports_sequences()
    }

    fn supports_sequences(&self) -> (b: bool) {
        (**self).supports_sequences()
    }
}

} // verus!

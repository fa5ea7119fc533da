//! Indexes and the constraints of a table: primary key, unique key and
//! foreign keys.

use vstd::prelude::*;
use crate::sql::dialect::TypeWriter;
use crate::sql::path::{ObjectPath, ObjectPathView};
use crate::text::{clone_strings, join, join_strings, texts};

verus! {

/// Names of fields, in order.
pub type FieldNames = Vec<String>;

/// An index over some fields of a table.
#[derive(Debug)]
pub struct Index {
    pub table: ObjectPath,
    pub fields: FieldNames,
}

/// Mathematical model of an [`Index`].
pub struct IndexView {
    pub table: ObjectPathView,
    pub fields: Seq<Seq<char>>,
}

impl View for Index {
    type V = IndexView;

    open spec fn view(&self) -> IndexView {
        IndexView { table: self.table@, fields: texts(self.fields@) }
    }
}

impl Clone for Index {
    fn clone(&self) -> (r: Self)
        ensures
            r@ == self@,
    {
        Index { table: self.table.clone(), fields: clone_strings(&self.fields) }
    }
}

/// `CREATE INDEX table_f1_f2_idx ON path[ USING method] (f1,f2);`
pub open spec fn index_sql<W: TypeWriter + ?Sized>(x: IndexView, w: &W) -> Seq<char> {
    "CREATE INDEX "@ + x.table.name + "_"@ + join(x.fields, "_"@) + "_idx ON "@ + w.spec_schema(
        x.table,
    ) + w.spec_index_type() + " ("@ + join(x.fields, ","@) + ");"@
}

/// The indexes of a table.
pub type Indexes = Vec<Index>;

impl Index {
    /// The index of `table` over `fields`.
    pub fn new(table: &ObjectPath, fields: &FieldNames) -> (x: Self)
        ensures
            x@ == (IndexView { table: table@, fields: texts(fields@) }),
    {
        Index { table: table.clone(), fields: clone_strings(fields) }
    }

    /// The `CREATE INDEX` statement.
    pub fn to_sql<W: TypeWriter + ?Sized>(&self, type_writer: &W) -> (s: String)
        ensures
            s@ == index_sql(self@, type_writer),
    {
        let mut s = "CREATE INDEX ".to_owned();
        s.append(self.table.name.as_str());
        s.append("_");
        s.append(join_strings(&self.fields, "_").as_str());
        s.append("_idx ON ");
        s.append(type_writer.schema(&self.table).as_str());
        s.append(type_writer.index_type().as_str());
        s.append(" (");
        s.append(join_strings(&self.fields, ",").as_str());
        s.append(");");
        s
    }
}

/// Mathematical model of a [`UniqueKey`] and of a [`PrimaryKey`]: the stem
/// of the constraint's name and the fields it covers.
pub struct KeyView {
    pub name: Seq<char>,
    pub fields: Seq<Seq<char>>,
}

/// The `UNIQUE` constraint of a table.
#[derive(Debug)]
pub struct UniqueKey {
    pub name: String,
    pub fields: FieldNames,
}

impl View for UniqueKey {
    type V = KeyView;

    open spec fn view(&self) -> KeyView {
        KeyView { name: self.name@, fields: texts(self.fields@) }
    }
}

impl Clone for UniqueKey {
    fn clone(&self) -> (r: Self)
        ensures
            r@ == self@,
    {
        UniqueKey { name: self.name.clone(), fields: clone_strings(&self.fields) }
    }
}

/// `CONSTRAINT name_uk UNIQUE (f1,f2)`
pub open spec fn unique_key_sql(k: KeyView) -> Seq<char> {
    "CONSTRAINT "@ + k.name + "_uk UNIQUE ("@ + join(k.fields, ","@) + ")"@
}

impl UniqueKey {
    /// The constraint clause. No dialect writes it differently.
    pub fn to_sql<W: TypeWriter + ?Sized>(&self, _type_writer: &W) -> (s: String)
        ensures
            s@ == unique_key_sql(self@),
    {
        let mut s = "CONSTRAINT ".to_owned();
        s.append(self.name.as_str());
        s.append("_uk UNIQUE (");
        s.append(join_strings(&self.fields, ",").as_str());
        s.append(")");
        s
    }
}

/// The `PRIMARY KEY` constraint of a table.
#[derive(Debug)]
pub struct PrimaryKey {
    pub name: String,
    pub fields: FieldNames,
}

impl View for PrimaryKey {
    type V = KeyView;

    open spec fn view(&self) -> KeyView {
        KeyView { name: self.name@, fields: texts(self.fields@) }
    }
}

impl Clone for PrimaryKey {
    fn clone(&self) -> (r: Self)
        ensures
            r@ == self@,
    {
        PrimaryKey { name: self.name.clone(), fields: clone_strings(&self.fields) }
    }
}

/// `CONSTRAINT name_pk PRIMARY KEY (f1,f2)`
pub open spec fn primary_key_sql(k: KeyView) -> Seq<char> {
    "CONSTRAINT "@ + k.name + "_pk PRIMARY KEY ("@ + join(k.fields, ","@) + ")"@
}

impl PrimaryKey {
    /// The constraint clause. No dialect writes it differently.
    pub fn to_sql<W: TypeWriter + ?Sized>(&self, _type_writer: &W) -> (s: String)
        ensures
            s@ == primary_key_sql(self@),
    {
        let mut s = "CONSTRAINT ".to_owned();
        s.append(self.name.as_str());
        s.append("_pk PRIMARY KEY (");
        s.append(join_strings(&self.fields, ",").as_str());
        s.append(")");
        s
    }
}

/// What happens to a referencing row when the referenced row is deleted or
/// updated.
#[derive(Clone, Copy, Debug, PartialEq, Eq, Structural)]
pub enum FKOn {
    Restrict,
    Cascade,
}

impl FKOn {
    /// The SQL keyword of the action.
    pub open spec fn keyword(self) -> Seq<char> {
        match self {
            FKOn::Cascade => "CASCADE"@,
            FKOn::Restrict => "RESTRICT"@,
        }
    }

    pub fn to_string(&self) -> (s: String)
        ensures
            s@ == self.keyword(),
    {
        match self {
            FKOn::Cascade => "CASCADE".to_owned(),
            FKOn::Restrict => "RESTRICT".to_owned(),
        }
    }
}

impl Default for FKOn {
    fn default() -> (a: Self)
        ensures
            a == FKOn::Restrict,
    {
        FKOn::Restrict
    }
}

/// A foreign key from some fields of `table` to fields of `ref_table`.
#[derive(Debug)]
pub struct ForeignKey {
    pub table: ObjectPath,
    pub fields: FieldNames,
    pub ref_table: ObjectPath,
    pub ref_fields: FieldNames,
    pub on_delete: FKOn,
    pub on_update: FKOn,
}

/// Mathematical model of a [`ForeignKey`].
pub struct ForeignKeyView {
    pub table: ObjectPathView,
    pub fields: Seq<Seq<char>>,
    pub ref_table: ObjectPathView,
    pub ref_fields: Seq<Seq<char>>,
    pub on_delete: FKOn,
    pub on_update: FKOn,
}

impl View for ForeignKey {
    type V = ForeignKeyView;

    open spec fn view(&self) -> ForeignKeyView {
        ForeignKeyView {
            table: self.table@,
            fields: texts(self.fields@),
            ref_table: self.ref_table@,
            ref_fields: texts(self.ref_fields@),
            on_delete: self.on_delete,
            on_update: self.on_update,
        }
    }
}

impl Clone for ForeignKey {
    fn clone(&self) -> (r: Self)
        ensures
            r@ == self@,
    {
        ForeignKey {
            table: self.table.clone(),
            fields: clone_strings(&self.fields),
            ref_table: self.ref_table.clone(),
            ref_fields: clone_strings(&self.ref_fields),
            on_delete: self.on_delete,
            on_update: self.on_update,
        }
    }
}

/// The constraint clause of a foreign key, as it stands in the body of a
/// `CREATE TABLE`:
/// `CONSTRAINT table_ref_f1_f2_fk FOREIGN KEY (f1,f2) REFERENCES path (r1,r2) ON DELETE x ON UPDATE y`
pub open spec fn foreign_key_sql<W: TypeWriter + ?Sized>(k: ForeignKeyView, w: &W) -> Seq<char> {
    "CONSTRAINT "@ + k.table.name + "_"@ + k.ref_table.name + "_"@ + join(k.fields, "_"@)
        + "_fk FOREIGN KEY ("@ + join(k.fields, ","@) + ") REFERENCES "@ + w.spec_schema(
        k.ref_table,
    ) + " ("@ + join(k.ref_fields, ","@) + ") ON DELETE "@ + k.on_delete.keyword()
        + " ON UPDATE "@ + k.on_update.keyword()
}

/// The statement that adds a foreign key to a table that exists:
/// `ALTER TABLE path ADD CONSTRAINT ...;`
pub open spec fn foreign_key_statement<W: TypeWriter + ?Sized>(k: ForeignKeyView, w: &W) -> Seq<
    char,
> {
    "ALTER TABLE "@ + w.spec_schema(k.table) + " ADD "@ + foreign_key_sql(k, w) + ";"@
}

impl ForeignKey {
    /// The constraint clause, for the body of a `CREATE TABLE`.
    pub fn to_sql<W: TypeWriter + ?Sized>(&self, type_writer: &W) -> (s: String)
        ensures
            s@ == foreign_key_sql(self@, type_writer),
    {
        let mut s = "CONSTRAINT ".to_owned();
        s.append(self.table.name.as_str());
        s.append("_");
        s.append(self.ref_table.name.as_str());
        s.append("_");
        s.append(join_strings(&self.fields, "_").as_str());
        s.append("_fk FOREIGN KEY (");
        s.append(join_strings(&self.fields, ",").as_str());
        s.append(") REFERENCES ");
        s.append(type_writer.schema(&self.ref_table).as_str());
        s.append(" (");
        s.append(join_strings(&self.ref_fields, ",").as_str());
        s.append(") ON DELETE ");
        s.append(self.on_delete.to_string().as_str());
        s.append(" ON UPDATE ");
        s.append(self.on_update.to_string().as_str());
        s
    }

    /// The standalone `ALTER TABLE ... ADD CONSTRAINT ...;` statement.
    pub fn to_statement<W: TypeWriter + ?Sized>(&self, type_writer: &W) -> (s: String)
        ensures
            s@ == foreign_key_statement(self@, type_writer),
    {
        let mut s = "ALTER TABLE ".to_owned();
        s.append(type_writer.schema(&self.table).as_str());
        s.append(" ADD ");
        s.append(self.to_sql(type_writer).as_str());
        s.append(";");
        s
    }
}

/// The foreign keys of a table.
pub type ForeignKeys = Vec<ForeignKey>;

} // verus!

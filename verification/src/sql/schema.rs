//! `CREATE SCHEMA`.

use vstd::prelude::*;
use crate::sql::dialect::TypeWriter;

verus! {

/// A schema and the role that owns it.
#[derive(Debug)]
pub struct Schema {
    pub name: String,
    pub owner: String,
}

/// Mathematical model of a [`Schema`].
pub struct SchemaView {
    pub name: Seq<char>,
    pub owner: Seq<char>,
}

impl View for Schema {
    type V = SchemaView;

    open spec fn view(&self) -> SchemaView {
        SchemaView { name: self.name@, owner: self.owner@ }
    }
}

impl Clone for Schema {
    fn clone(&self) -> (r: Self)
        ensures
            r@ == self@,
    {
        Schema { name: self.name.clone(), owner: self.owner.clone() }
    }
}

/// `CREATE SCHEMA name AUTHORIZATION owner;`, or nothing where the dialect
/// has no schemas.
pub open spec fn schema_sql<W: TypeWriter + ?Sized>(s: SchemaView, w: &W) -> Seq<char> {
    if w.spec_supports_schemas() {
        "CREATE SCHEMA "@ + s.name + " AUTHORIZATION "@ + s.owner + ";"@
    } else {
        Seq::empty()
    }
}

impl Schema {
    /// The schema `name`, owned by `owner`.
    pub fn new(name: &str, owner: &str) -> (s: Self)
        ensures
            s@ == (SchemaView { name: name@, owner: owner@ }),
    {
        Schema { name: name.to_owned(), owner: owner.to_owned() }
    }

    /// The `CREATE SCHEMA` statement, empty where the dialect has none.
    pub fn to_sql<W: TypeWriter + ?Sized>(&self, type_writer: &W) -> (s: String)
        ensures
            s@ == schema_sql(self@, type_writer),
    {
        if type_writer.supports_schemas() {
            let mut s = "CREATE SCHEMA ".to_owned();
            s.append(self.name.as_str());
            s.append(" AUTHORIZATION ");
            s.append(self.owner.as_str());
            s.append(";");
            s
        } else {
            String::new()
        }
    }
}

} // verus!

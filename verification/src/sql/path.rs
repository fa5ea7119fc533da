//! Qualified names of schemas, tables and sequences.

use vstd::prelude::*;

verus! {

/// Kinds of addressable database objects.
#[derive(Clone, Copy, Debug, PartialEq, Eq, Structural)]
pub enum ObjectType {
    Table,
    Sequence,
    Schema,
}

impl ObjectType {
    /// The SQL keyword of the kind.
    pub open spec fn keyword(self) -> Seq<char> {
        match self {
            ObjectType::Table => "TABLE"@,
            ObjectType::Sequence => "SEQUENCE"@,
            ObjectType::Schema => "SCHEMA"@,
        }
    }

    pub fn to_string(&self) -> (s: String)
        ensures
            s@ == self.keyword(),
    {
        match self {
            ObjectType::Table => "TABLE".to_owned(),
            ObjectType::Sequence => "SEQUENCE".to_owned(),
            ObjectType::Schema => "SCHEMA".to_owned(),
        }
    }
}

impl Default for ObjectType {
    fn default() -> (t: Self)
        ensures
            t == ObjectType::Table,
    {
        ObjectType::Table
    }
}

/// The address of an object: an optional schema, a name and a kind.
#[derive(Debug)]
pub struct ObjectPath {
    pub schema: Option<String>,
    pub name: String,
    pub otype: ObjectType,
}

/// Mathematical model of an [`ObjectPath`].
pub struct ObjectPathView {
    pub schema: Option<Seq<char>>,
    pub name: Seq<char>,
    pub otype: ObjectType,
}

impl ObjectPathView {
    /// `schema.name`, or the bare name where there is no schema.
    pub open spec fn qualified(self) -> Seq<char> {
        match self.schema {
            Some(schema) => schema + "."@ + self.name,
            None => self.name,
        }
    }

    /// Two paths address the same object: they have the same schema, or
    /// both have none, the same name and the same kind.
    pub open spec fn same_as(self, other: ObjectPathView) -> bool {
        &&& self.schema == other.schema
        &&& self.name == other.name
        &&& self.otype == other.otype
    }
}

impl View for ObjectPath {
    type V = ObjectPathView;

    open spec fn view(&self) -> ObjectPathView {
        ObjectPathView {
            schema: match self.schema {
                Some(s) => Some(s@),
                None => None,
            },
            name: self.name@,
            otype: self.otype,
        }
    }
}

impl Clone for ObjectPath {
    fn clone(&self) -> (r: Self)
        ensures
            r@ == self@,
    {
        let schema = match &self.schema {
            Some(s) => Some(s.clone()),
            None => None,
        };
        ObjectPath { schema, name: self.name.clone(), otype: self.otype }
    }
}

impl ObjectPath {
    /// The path of table `name` in `schema`.
    pub fn new_table(schema: &str, name: &str) -> (p: Self)
        ensures
            p@ == (ObjectPathView { schema: Some(schema@), name: name@, otype: ObjectType::Table }),
    {
        ObjectPath { schema: Some(schema.to_owned()), name: name.to_owned(), otype: ObjectType::Table }
    }

    /// The path of the schema `name` itself: no enclosing schema.
    pub fn new_table_only(name: &str) -> (p: Self)
        ensures
            p@ == (ObjectPathView { schema: None, name: name@, otype: ObjectType::Schema }),
    {
        ObjectPath { schema: None, name: name.to_owned(), otype: ObjectType::Schema }
    }

    /// The path of sequence `name` in `schema`.
    pub fn new_sequence(schema: &str, name: &str) -> (p: Self)
        ensures
            p@ == (ObjectPathView {
                schema: Some(schema@),
                name: name@,
                otype: ObjectType::Sequence,
            }),
    {
        ObjectPath {
            schema: Some(schema.to_owned()),
            name: name.to_owned(),
            otype: ObjectType::Sequence,
        }
    }

    /// `schema.name`, or the bare name where the path has no schema.
    pub fn full_name(&self) -> (s: String)
        ensures
            s@ == self@.qualified(),
    {
        match &self.schema {
            Some(schema) => {
                let mut s = schema.clone();
                s.append(".");
                s.append(self.name.as_str());
                s
            },
            None => self.name.clone(),
        }
    }

    /// Whether both paths address the same object: whether they have the
    /// same schema, or both have none, the same name and the same kind.
    pub fn is_equal(&self, other: &ObjectPath) -> (same: bool)
        ensures
            same == self@.same_as(other@),
            same == (self@ == other@),
    {
        let schemas_agree = match (&self.schema, &other.schema) {
            (Some(a), Some(b)) => *a == *b,
            (None, None) => true,
            _ => false,
        };
        schemas_agree && self.name == other.name && self.otype == other.otype
    }
}

} // verus!

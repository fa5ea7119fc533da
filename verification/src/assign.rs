//! An assignment database: the names of its roles and tables, the
//! description of its fields, and the cross-check of the schema that a
//! foreign key declares.

use vstd::prelude::*;
pub use crate::document::description::{non_roster_fields, AsgFields, AsgFieldsView};
use crate::sql::constraint::{ForeignKey, ForeignKeyView};
use crate::sql::field::optional_text;
use crate::sql::path::{ObjectPath, ObjectPathView, ObjectType};
use crate::text::clone_strings;

verus! {

/// The roles that get permissions: read-write, read-only and update.
#[derive(Debug)]
pub struct AsgRoles {
    pub rw: String,
    pub ro: String,
    pub upd: String,
}

impl Default for AsgRoles {
    fn default() -> (r: Self)
        ensures
            r.rw@ == "dnecv_rw"@,
            r.ro@ == "dnecv_ro"@,
            r.upd@ == "dnecv_upd"@,
    {
        AsgRoles { rw: "dnecv_rw".to_owned(), ro: "dnecv_ro".to_owned(), upd: "dnecv_upd".to_owned() }
    }
}

/// The names of the three tables.
#[derive(Debug)]
pub struct AsgTables {
    main: String,
    cache: String,
    users: String,
}

impl AsgTables {
    /// The three table names.
    pub fn new(main: &str, cache: &str, users: &str) -> (t: Self)
        ensures
            t.main_name() == main@,
            t.cache_name() == cache@,
            t.users_name() == users@,
    {
        AsgTables { main: main.to_owned(), cache: cache.to_owned(), users: users.to_owned() }
    }

    /// Name of the main table.
    pub closed spec fn main_name(&self) -> Seq<char> {
        self.main@
    }

    /// Name of the cache table.
    pub closed spec fn cache_name(&self) -> Seq<char> {
        self.cache@
    }

    /// Name of the users table.
    pub closed spec fn users_name(&self) -> Seq<char> {
        self.users@
    }
}

impl Default for AsgTables {
    fn default() -> (t: Self)
        ensures
            t.main_name() == "asignaciones"@,
            t.cache_name() == "asignaciones_cache"@,
            t.users_name() == "users"@,
    {
        AsgTables {
            main: "asignaciones".to_owned(),
            cache: "asignaciones_cache".to_owned(),
            users: "users".to_owned(),
        }
    }
}

/// Where the assignment tables live and who may use them.
#[derive(Debug)]
pub struct AssignSpec {
    pub schema: String,
    pub tables: AsgTables,
    pub roles: AsgRoles,
    /// Path of the file that describes the fields.
    pub fields_file: String,
}

/// The path of table `name` in `schema`.
pub open spec fn table_path(schema: Seq<char>, name: Seq<char>) -> ObjectPathView {
    ObjectPathView { schema: Some(schema), name, otype: ObjectType::Table }
}

/// `schema.name`
fn qualified(schema: &String, name: &String) -> (s: String)
    ensures
        s@ == schema@ + "."@ + name@,
{
    let mut s = schema.clone();
    s.append(".");
    s.append(name.as_str());
    s
}

impl AssignSpec {
    /// Full name of the main table.
    pub fn table_main(&self) -> (s: String)
        ensures
            s@ == self.schema@ + "."@ + self.tables.main_name(),
    {
        qualified(&self.schema, &self.tables.main)
    }

    /// Full name of the cache table.
    pub fn table_cache(&self) -> (s: String)
        ensures
            s@ == self.schema@ + "."@ + self.tables.cache_name(),
    {
        qualified(&self.schema, &self.tables.cache)
    }

    /// Full name of the users table.
    pub fn table_users(&self) -> (s: String)
        ensures
            s@ == self.schema@ + "."@ + self.tables.users_name(),
    {
        qualified(&self.schema, &self.tables.users)
    }

    /// Path of the main table.
    pub fn path_table_main(&self) -> (p: ObjectPath)
        ensures
            p@ == table_path(self.schema@, self.tables.main_name()),
    {
        ObjectPath::new_table(self.schema.as_str(), self.tables.main.as_str())
    }

    /// Path of the cache table.
    pub fn path_table_cache(&self) -> (p: ObjectPath)
        ensures
            p@ == table_path(self.schema@, self.tables.cache_name()),
    {
        ObjectPath::new_table(self.schema.as_str(), self.tables.cache.as_str())
    }

    /// Path of the users table.
    pub fn path_table_users(&self) -> (p: ObjectPath)
        ensures
            p@ == table_path(self.schema@, self.tables.users_name()),
    {
        ObjectPath::new_table(self.schema.as_str(), self.tables.users.as_str())
    }
}

/// An object declares another schema than the one that is expected.
#[derive(Debug)]
pub struct SchemaMismatch {
    pub expected: String,
    pub found: String,
}

/// What the cross-check of a declared schema gives: whether one is
/// declared, or the mismatch where it is another than `expected`.
pub open spec fn schema_check(expected: Seq<char>, declared: Option<Seq<char>>) -> Result<
    bool,
    (Seq<char>, Seq<char>),
> {
    match declared {
        None => Ok(false),
        Some(found) => if found == expected {
            Ok(true)
        } else {
            Err((expected, found))
        },
    }
}

/// A foreign key between the tables of the same names in `schema`.
pub open spec fn moved_into(schema: Seq<char>, key: ForeignKeyView) -> ForeignKeyView {
    ForeignKeyView {
        table: table_path(schema, key.table.name),
        ref_table: table_path(schema, key.ref_table.name),
        ..key
    }
}

/// What becomes of a foreign key in the schema `expected`. A key that
/// declares that schema for both of its tables stays as it is (`None`). A
/// key whose table declares no schema is moved into the schema, whatever
/// its other table declares; so is one whose table declares the schema
/// and whose other table declares none. A key that declares another
/// schema, where it is looked at, is a mismatch.
pub open spec fn normalized(expected: Seq<char>, key: ForeignKeyView) -> Result<
    Option<ForeignKeyView>,
    (Seq<char>, Seq<char>),
> {
    match schema_check(expected, key.table.schema) {
        Err(e) => Err(e),
        Ok(false) => Ok(Some(moved_into(expected, key))),
        Ok(true) => match schema_check(expected, key.ref_table.schema) {
            Err(e) => Err(e),
            Ok(false) => Ok(Some(moved_into(expected, key))),
            Ok(true) => Ok(None),
        },
    }
}

impl AssignSpec {
    /// Whether an object declares a schema, which must then be this one's.
    pub fn has_schema(&self, oschema: &Option<String>) -> (r: Result<bool, SchemaMismatch>)
        ensures
            match r {
                Ok(b) => schema_check(self.schema@, optional_text(*oschema)) == Ok::<
                    bool,
                    (Seq<char>, Seq<char>),
                >(b),
                Err(e) => schema_check(self.schema@, optional_text(*oschema)) == Err::<
                    bool,
                    (Seq<char>, Seq<char>),
                >((e.expected@, e.found@)),
            },
    {
        match oschema {
            Some(schema) => {
                if *schema == self.schema {
                    Ok(true)
                } else {
                    Err(SchemaMismatch { expected: self.schema.clone(), found: schema.clone() })
                }
            },
            None => Ok(false),
        }
    }

    /// The foreign key as it is to stand in a table of this schema, or
    /// `None` where it declares this schema throughout and stays as it is.
    pub fn normalize_foreign_key(&self, key: &ForeignKey) -> (r: Result<
        Option<ForeignKey>,
        SchemaMismatch,
    >)
        ensures
            match r {
                Ok(Some(moved)) => normalized(self.schema@, key@) == Ok::<
                    Option<ForeignKeyView>,
                    (Seq<char>, Seq<char>),
                >(Some(moved@)),
                Ok(None) => normalized(self.schema@, key@) == Ok::<
                    Option<ForeignKeyView>,
                    (Seq<char>, Seq<char>),
                >(None),
                Err(e) => normalized(self.schema@, key@) == Err::<
                    Option<ForeignKeyView>,
                    (Seq<char>, Seq<char>),
                >((e.expected@, e.found@)),
            },
    {
        if self.has_schema(&key.table.schema)? {
            if self.has_schema(&key.ref_table.schema)? {
                return Ok(None);
            }
        }
        Ok(
            Some(
                ForeignKey {
                    table: ObjectPath::new_table(self.schema.as_str(), key.table.name.as_str()),
                    fields: clone_strings(&key.fields),
                    ref_table: ObjectPath::new_table(
                        self.schema.as_str(),
                        key.ref_table.name.as_str(),
                    ),
                    ref_fields: clone_strings(&key.ref_fields),
                    on_delete: key.on_delete,
                    on_update: key.on_update,
                },
            ),
        )
    }
}

} // verus!

//! Reading documents: from a tree to fields, paths and objects.

use vstd::prelude::*;
use crate::document::codec::{
    action_named, all_texts, field_type_named, flag, object_type_at, object_type_named,
    optional_text, path_of, permission_named, required_names, required_text, seen, DocumentError,
    DocumentErrorView,
};
use crate::document::fields::{attributes_of, field_of, field_type_at};
use crate::document::objects::{
    action_at, field_reader, foreign_key_of, foreign_key_reader, foreign_keys_at, grant_of,
    index_of, key_of, object_of, object_reader, objects_of, owner_of, path_at, read_all, read_first,
    schema_of, table_of,
};
use crate::document::tree::{node_views, Node, NodeView};
use crate::sql::constraint::{FKOn, ForeignKey, Index, PrimaryKey, UniqueKey};
use crate::sql::field::{field_views, optional_text as text_view, Field, FieldAttributes, FieldType};
use crate::sql::object::{object_views, DBObject};
use crate::sql::path::{ObjectPath, ObjectType};
use crate::sql::permission::{Grant, GrantType, Owner};
use crate::sql::schema::Schema;
use crate::sql::table::{foreign_key_views, optional_foreign_key_views, Table};
use crate::text::texts;

verus! {

/// Whether `text` is the text of `literal`.
fn is_text(text: &String, literal: &str) -> (b: bool)
    ensures
        b == (text@ == literal@),
{
    *text == literal.to_owned()
}

/// The text that mapping `m` must hold under `key`.
fn text_at(m: &Node, key: &str) -> (r: Result<String, DocumentError>)
    ensures
        seen(r) == required_text(m@, key@),
{
    match m.get(key) {
        None => Err(DocumentError::MissingKey(key.to_owned())),
        Some(Node::Text(t)) => Ok(t.clone()),
        Some(_) => Err(DocumentError::WrongType(key.to_owned())),
    }
}

/// The text that mapping `m` may hold under `key`.
fn optional_text_at(m: &Node, key: &str) -> (r: Result<Option<String>, DocumentError>)
    ensures
        match r {
            Ok(t) => optional_text(m@, key@) == Ok::<Option<Seq<char>>, DocumentErrorView>(
                text_view(t),
            ),
            Err(e) => optional_text(m@, key@) == Err::<Option<Seq<char>>, DocumentErrorView>(e@),
        },
{
    match m.get(key) {
        None => Ok(None),
        Some(Node::Null) => Ok(None),
        Some(Node::Text(t)) => Ok(Some(t.clone())),
        Some(_) => Err(DocumentError::WrongType(key.to_owned())),
    }
}

/// The flag that mapping `m` may hold under `key`.
fn flag_at(m: &Node, key: &str, default: bool) -> (r: Result<bool, DocumentError>)
    ensures
        match r {
            Ok(b) => flag(m@, key@, default) == Ok::<bool, DocumentErrorView>(b),
            Err(e) => flag(m@, key@, default) == Err::<bool, DocumentErrorView>(e@),
        },
{
    match m.get(key) {
        None => Ok(default),
        Some(Node::Bool(b)) => Ok(*b),
        Some(_) => Err(DocumentError::WrongType(key.to_owned())),
    }
}

/// The names that mapping `m` must hold under `key`.
fn names_at(m: &Node, key: &str) -> (r: Result<Vec<String>, DocumentError>)
    ensures
        match r {
            Ok(names) => required_names(m@, key@) == Ok::<Seq<Seq<char>>, DocumentErrorView>(
                texts(names@),
            ),
            Err(e) => required_names(m@, key@) == Err::<Seq<Seq<char>>, DocumentErrorView>(e@),
        },
{
    match m.get(key) {
        None => Err(DocumentError::MissingKey(key.to_owned())),
        Some(found) => match found.items() {
            Some(items) => {
                let ghost views = node_views(items@);
                let mut names: Vec<String> = Vec::new();
                let mut i: usize = 0;
                while i < items.len()
                    invariant
                        i <= items.len(),
                        views == node_views(items@),
                        m@.get(key@) == Some(NodeView::List(views)),
                        all_texts(views, i as int),
                        names@.len() == i,
                        forall|j: int| 0 <= j < i ==> (#[trigger] names@[j])@ == views[j]->Text_0,
                    decreases items.len() - i,
                {
                    match &items[i] {
                        Node::Text(t) => {
                            names.push(t.clone());
                        },
                        _ => {
                            assert(!(views[i as int] is Text));
                            assert(!all_texts(views, views.len() as int));
                            return Err(DocumentError::WrongType(key.to_owned()));
                        },
                    }
                    i = i + 1;
                }
                assert(texts(names@) =~= Seq::new(views.len(), |i: int| views[i]->Text_0));
                Ok(names)
            },
            None => Err(DocumentError::WrongType(key.to_owned())),
        },
    }
}

/// The column type that `name` stands for.
fn field_type_from(name: &String) -> (r: Option<FieldType>)
    ensures
        r == field_type_named(name@),
{
    if is_text(name, "int") {
        Some(FieldType::Int)
    } else if is_text(name, "bigint") {
        Some(FieldType::BigInt)
    } else if is_text(name, "text") {
        Some(FieldType::Txt)
    } else if is_text(name, "double") {
        Some(FieldType::Dbl)
    } else if is_text(name, "bool") {
        Some(FieldType::Bool)
    } else if is_text(name, "auto_increment") {
        Some(FieldType::AutoInc)
    } else {
        None
    }
}

/// The object kind that `name` stands for.
fn object_type_from(name: &String) -> (r: Option<ObjectType>)
    ensures
        r == object_type_named(name@),
{
    if is_text(name, "Table") {
        Some(ObjectType::Table)
    } else if is_text(name, "Sequence") {
        Some(ObjectType::Sequence)
    } else if is_text(name, "Schema") {
        Some(ObjectType::Schema)
    } else {
        None
    }
}

/// The foreign-key action that `name` stands for.
fn action_from(name: &String) -> (r: Option<FKOn>)
    ensures
        r == action_named(name@),
{
    if is_text(name, "restrict") || is_text(name, "Restrict") {
        Some(FKOn::Restrict)
    } else if is_text(name, "cascade") || is_text(name, "Cascade") {
        Some(FKOn::Cascade)
    } else {
        None
    }
}

/// The permission that `name` stands for.
fn permission_from(name: &String) -> (r: Option<GrantType>)
    ensures
        r == permission_named(name@),
{
    if is_text(name, "Select") {
        Some(GrantType::Select)
    } else if is_text(name, "Insert") {
        Some(GrantType::Insert)
    } else if is_text(name, "Update") {
        Some(GrantType::Update)
    } else if is_text(name, "Delete") {
        Some(GrantType::Delete)
    } else if is_text(name, "Truncate") {
        Some(GrantType::Truncate)
    } else if is_text(name, "References") {
        Some(GrantType::References)
    } else if is_text(name, "Trigger") {
        Some(GrantType::Trigger)
    } else if is_text(name, "All") {
        Some(GrantType::All)
    } else if is_text(name, "Usage") {
        Some(GrantType::Usage)
    } else {
        None
    }
}

/// The column type that mapping `m` may hold under `key`.
fn read_field_type_at(m: &Node, key: &str) -> (r: Result<FieldType, DocumentError>)
    ensures
        match r {
            Ok(t) => field_type_at(m@, key@) == Ok::<FieldType, DocumentErrorView>(t),
            Err(e) => field_type_at(m@, key@) == Err::<FieldType, DocumentErrorView>(e@),
        },
{
    match m.get(key) {
        None => Ok(FieldType::Txt),
        Some(Node::Text(t)) => match field_type_from(t) {
            Some(dtype) => Ok(dtype),
            None => Err(DocumentError::UnknownValue(t.clone())),
        },
        Some(_) => Err(DocumentError::WrongType(key.to_owned())),
    }
}

/// The object kind that mapping `m` may hold under `key`.
fn read_object_type_at(m: &Node, key: &str) -> (r: Result<ObjectType, DocumentError>)
    ensures
        match r {
            Ok(t) => object_type_at(m@, key@) == Ok::<ObjectType, DocumentErrorView>(t),
            Err(e) => object_type_at(m@, key@) == Err::<ObjectType, DocumentErrorView>(e@),
        },
{
    match m.get(key) {
        None => Ok(ObjectType::Table),
        Some(Node::Text(t)) => match object_type_from(t) {
            Some(kind) => Ok(kind),
            None => Err(DocumentError::UnknownValue(t.clone())),
        },
        Some(_) => Err(DocumentError::WrongType(key.to_owned())),
    }
}

/// The foreign-key action that mapping `m` may hold under `key`.
fn read_action_at(m: &Node, key: &str) -> (r: Result<FKOn, DocumentError>)
    ensures
        match r {
            Ok(a) => action_at(m@, key@) == Ok::<FKOn, DocumentErrorView>(a),
            Err(e) => action_at(m@, key@) == Err::<FKOn, DocumentErrorView>(e@),
        },
{
    match m.get(key) {
        None => Ok(FKOn::Restrict),
        Some(Node::Text(t)) => match action_from(t) {
            Some(action) => Ok(action),
            None => Err(DocumentError::UnknownValue(t.clone())),
        },
        Some(_) => Err(DocumentError::WrongType(key.to_owned())),
    }
}

/// Whether the node is a mapping.
fn is_mapping(node: &Node) -> (b: bool)
    ensures
        b == (node@ is Mapping),
{
    match node {
        Node::Mapping(_) => true,
        _ => false,
    }
}

/// Reads a path.
pub fn read_path(node: &Node) -> (r: Result<ObjectPath, DocumentError>)
    ensures
        seen(r) == path_of(node@),
{
    if !is_mapping(node) {
        return Err(DocumentError::NotAMapping);
    }
    let schema = optional_text_at(node, "schema")?;
    let name = text_at(node, "name")?;
    let otype = if node.get("type").is_some() {
        read_object_type_at(node, "type")?
    } else {
        read_object_type_at(node, "otype")?
    };
    Ok(ObjectPath { schema, name, otype })
}

/// The path that mapping `m` must hold under `key`.
fn read_path_at(m: &Node, key: &str) -> (r: Result<ObjectPath, DocumentError>)
    ensures
        seen(r) == path_at(m@, key@),
{
    match m.get(key) {
        None => Err(DocumentError::MissingKey(key.to_owned())),
        Some(described) => read_path(described),
    }
}

/// Reads the attributes of a field.
pub fn read_attributes(node: &Node) -> (r: Result<FieldAttributes, DocumentError>)
    ensures
        seen(r) == attributes_of(node@),
{
    if !is_mapping(node) {
        return Err(DocumentError::NotAMapping);
    }
    let dtype = read_field_type_at(node, "type")?;
    let unique = flag_at(node, "unique", false)?;
    let empty = flag_at(node, "empty", true)?;
    let roster = flag_at(node, "roster", false)?;
    let defval = optional_text_at(node, "defval")?;
    let primary_key = flag_at(node, "primary_key", false)?;
    let index = flag_at(node, "index", false)?;
    let only_db = flag_at(node, "only_db", false)?;
    let meta_name = optional_text_at(node, "meta_name")?;
    Ok(
        FieldAttributes {
            dtype,
            unique,
            empty,
            roster,
            defval,
            primary_key,
            index,
            only_db,
            meta_name,
        },
    )
}

/// Reads a field.
pub fn read_field(node: &Node) -> (r: Result<Field, DocumentError>)
    ensures
        seen(r) == field_of(node@),
{
    if !is_mapping(node) {
        return Err(DocumentError::NotAMapping);
    }
    let name = text_at(node, "name")?;
    let attributes = match node.get("attributes") {
        None => {
            return Err(DocumentError::MissingKey("attributes".to_owned()));
        },
        Some(described) => read_attributes(described)?,
    };
    Ok(Field { name, attributes })
}

/// Reads a schema.
pub fn read_schema(node: &Node) -> (r: Result<Schema, DocumentError>)
    ensures
        seen(r) == schema_of(node@),
{
    if !is_mapping(node) {
        return Err(DocumentError::NotAMapping);
    }
    let name = text_at(node, "name")?;
    let owner = text_at(node, "owner")?;
    Ok(Schema { name, owner })
}

/// Reads a grant.
pub fn read_grant(node: &Node) -> (r: Result<Grant, DocumentError>)
    ensures
        seen(r) == grant_of(node@),
{
    if !is_mapping(node) {
        return Err(DocumentError::NotAMapping);
    }
    let name = text_at(node, "permission")?;
    let permission = match permission_from(&name) {
        None => {
            return Err(DocumentError::UnknownValue(name));
        },
        Some(permission) => permission,
    };
    let to = text_at(node, "to")?;
    let on = read_path_at(node, "on")?;
    Ok(Grant { permission, to, on })
}

/// Reads an owner.
pub fn read_owner(node: &Node) -> (r: Result<Owner, DocumentError>)
    ensures
        seen(r) == owner_of(node@),
{
    if !is_mapping(node) {
        return Err(DocumentError::NotAMapping);
    }
    let to = text_at(node, "to")?;
    let of = read_path_at(node, "of")?;
    Ok(Owner { to, of })
}

/// Reads an index.
pub fn read_index(node: &Node) -> (r: Result<Index, DocumentError>)
    ensures
        seen(r) == index_of(node@),
{
    if !is_mapping(node) {
        return Err(DocumentError::NotAMapping);
    }
    let table = read_path_at(node, "table")?;
    let fields = names_at(node, "fields")?;
    Ok(Index { table, fields })
}

/// Reads a primary key.
pub fn read_primary_key(node: &Node) -> (r: Result<PrimaryKey, DocumentError>)
    ensures
        seen(r) == key_of(node@),
{
    if !is_mapping(node) {
        return Err(DocumentError::NotAMapping);
    }
    let name = text_at(node, "name")?;
    let fields = names_at(node, "fields")?;
    Ok(PrimaryKey { name, fields })
}

/// Reads a unique key.
pub fn read_unique_key(node: &Node) -> (r: Result<UniqueKey, DocumentError>)
    ensures
        seen(r) == key_of(node@),
{
    if !is_mapping(node) {
        return Err(DocumentError::NotAMapping);
    }
    let name = text_at(node, "name")?;
    let fields = names_at(node, "fields")?;
    Ok(UniqueKey { name, fields })
}

/// Reads a foreign key.
pub fn read_foreign_key(node: &Node) -> (r: Result<ForeignKey, DocumentError>)
    ensures
        seen(r) == foreign_key_of(node@),
{
    if !is_mapping(node) {
        return Err(DocumentError::NotAMapping);
    }
    let table = read_path_at(node, "table")?;
    let fields = names_at(node, "fields")?;
    let ref_table = read_path_at(node, "ref_table")?;
    let ref_fields = names_at(node, "ref_fields")?;
    let on_delete = read_action_at(node, "on_delete")?;
    let on_update = read_action_at(node, "on_update")?;
    Ok(ForeignKey { table, fields, ref_table, ref_fields, on_delete, on_update })
}

/// Reads a list of fields.
fn read_fields(items: &Vec<Node>) -> (r: Result<Vec<Field>, DocumentError>)
    ensures
        match r {
            Ok(fields) => read_all(node_views(items@), field_reader()) == Ok::<
                Seq<crate::sql::field::FieldView>,
                DocumentErrorView,
            >(field_views(fields@)),
            Err(e) => read_all(node_views(items@), field_reader()) == Err::<
                Seq<crate::sql::field::FieldView>,
                DocumentErrorView,
            >(e@),
        },
{
    let ghost views = node_views(items@);
    let mut fields: Vec<Field> = Vec::new();
    let mut i: usize = 0;
    assert(field_views(fields@) =~= Seq::empty());
    while i < items.len()
        invariant
            i <= items.len(),
            views == node_views(items@),
            read_first(views, field_reader(), i as nat) == Ok::<
                Seq<crate::sql::field::FieldView>,
                DocumentErrorView,
            >(field_views(fields@)),
        decreases items.len() - i,
    {
        let ghost before = field_views(fields@);
        match read_field(&items[i]) {
            Ok(field) => {
                fields.push(field);
                assert(field_views(fields@) =~= before.push(field@));
            },
            Err(e) => {
                proof {
                    lemma_read_fails(views, field_reader(), i as nat, views.len());
                }
                return Err(e);
            },
        }
        i = i + 1;
    }
    Ok(fields)
}

/// Reads a list of foreign keys.
fn read_foreign_keys(items: &Vec<Node>) -> (r: Result<Vec<ForeignKey>, DocumentError>)
    ensures
        match r {
            Ok(keys) => read_all(node_views(items@), foreign_key_reader()) == Ok::<
                Seq<crate::sql::constraint::ForeignKeyView>,
                DocumentErrorView,
            >(foreign_key_views(keys@)),
            Err(e) => read_all(node_views(items@), foreign_key_reader()) == Err::<
                Seq<crate::sql::constraint::ForeignKeyView>,
                DocumentErrorView,
            >(e@),
        },
{
    let ghost views = node_views(items@);
    let mut keys: Vec<ForeignKey> = Vec::new();
    let mut i: usize = 0;
    assert(foreign_key_views(keys@) =~= Seq::empty());
    while i < items.len()
        invariant
            i <= items.len(),
            views == node_views(items@),
            read_first(views, foreign_key_reader(), i as nat) == Ok::<
                Seq<crate::sql::constraint::ForeignKeyView>,
                DocumentErrorView,
            >(foreign_key_views(keys@)),
        decreases items.len() - i,
    {
        let ghost before = foreign_key_views(keys@);
        match read_foreign_key(&items[i]) {
            Ok(key) => {
                keys.push(key);
                assert(foreign_key_views(keys@) =~= before.push(key@));
            },
            Err(e) => {
                proof {
                    lemma_read_fails(views, foreign_key_reader(), i as nat, views.len());
                }
                return Err(e);
            },
        }
        i = i + 1;
    }
    Ok(keys)
}

/// Once an item cannot be read, the error stays whatever follows.
proof fn lemma_read_fails<T>(
    items: Seq<NodeView>,
    read: spec_fn(NodeView) -> Result<T, DocumentErrorView>,
    i: nat,
    n: nat,
)
    requires
        i < n <= items.len(),
        read_first(items, read, i) is Ok,
        read(items[i as int]) is Err,
    ensures
        read_first(items, read, n) == Err::<Seq<T>, DocumentErrorView>(
            read(items[i as int])->Err_0,
        ),
    decreases n,
{
    if n > i + 1 {
        lemma_read_fails(items, read, i, (n - 1) as nat);
    }
}

/// The foreign keys that mapping `m` may hold under `key`.
pub fn read_foreign_keys_at(m: &Node, key: &str) -> (r: Result<
    Option<Vec<ForeignKey>>,
    DocumentError,
>)
    ensures
        match r {
            Ok(keys) => foreign_keys_at(m@, key@) == Ok::<
                Option<Seq<crate::sql::constraint::ForeignKeyView>>,
                DocumentErrorView,
            >(optional_foreign_key_views(keys)),
            Err(e) => foreign_keys_at(m@, key@) == Err::<
                Option<Seq<crate::sql::constraint::ForeignKeyView>>,
                DocumentErrorView,
            >(e@),
        },
{
    match m.get(key) {
        None => Ok(None),
        Some(Node::Null) => Ok(None),
        Some(found) => match found.items() {
            Some(items) => Ok(Some(read_foreign_keys(items)?)),
            None => Err(DocumentError::WrongType(key.to_owned())),
        },
    }
}

/// Reads a table. The table is built as [`Table::new`] builds it, so
/// that a document cannot describe a table that cannot be built.
pub fn read_table(node: &Node) -> (r: Result<Table, DocumentError>)
    ensures
        seen(r) == table_of(node@),
{
    if !is_mapping(node) {
        return Err(DocumentError::NotAMapping);
    }
    let path = read_path_at(node, "path")?;
    let fields = match node.get("fields") {
        None => {
            return Err(DocumentError::MissingKey("fields".to_owned()));
        },
        Some(found) => match found.items() {
            Some(items) => read_fields(items)?,
            None => {
                return Err(DocumentError::WrongType("fields".to_owned()));
            },
        },
    };
    let fks = read_foreign_keys_at(node, "fks")?;
    match Table::new(&path, fields, fks) {
        Ok(table) => Ok(table),
        Err(fault) => Err(DocumentError::Table(fault)),
    }
}

/// Reads an object of any kind.
pub fn read_object(node: &Node) -> (r: Result<DBObject, DocumentError>)
    ensures
        seen(r) == object_of(node@),
{
    if !is_mapping(node) {
        return Err(DocumentError::NotAMapping);
    }
    let kind = text_at(node, "tag")?;
    if is_text(&kind, "Schema") {
        Ok(DBObject::Schema(read_schema(node)?))
    } else if is_text(&kind, "Table") {
        Ok(DBObject::Table(read_table(node)?))
    } else if is_text(&kind, "Grant") {
        Ok(DBObject::Grant(read_grant(node)?))
    } else if is_text(&kind, "Owner") {
        Ok(DBObject::Owner(read_owner(node)?))
    } else if is_text(&kind, "Index") {
        Ok(DBObject::Index(read_index(node)?))
    } else if is_text(&kind, "PrimaryKey") {
        Ok(DBObject::PrimaryKey(read_primary_key(node)?))
    } else if is_text(&kind, "UniqueKey") {
        Ok(DBObject::UniqueKey(read_unique_key(node)?))
    } else if is_text(&kind, "ForeignKey") {
        Ok(DBObject::ForeignKey(read_foreign_key(node)?))
    } else if is_text(&kind, "Field") {
        Ok(DBObject::Field(read_field(node)?))
    } else {
        Err(DocumentError::UnknownValue(kind))
    }
}

/// Reads the objects that a document describes.
pub fn read_objects(document: &Node) -> (r: Result<Vec<DBObject>, DocumentError>)
    ensures
        match r {
            Ok(objects) => objects_of(document@) == Ok::<
                Seq<crate::sql::object::DBObjectView>,
                DocumentErrorView,
            >(object_views(objects@)),
            Err(e) => objects_of(document@) == Err::<
                Seq<crate::sql::object::DBObjectView>,
                DocumentErrorView,
            >(e@),
        },
{
    match document.items() {
        None => Err(DocumentError::NotAList),
        Some(items) => {
            let ghost views = node_views(items@);
            let mut objects: Vec<DBObject> = Vec::new();
            let mut i: usize = 0;
            assert(object_views(objects@) =~= Seq::empty());
            while i < items.len()
                invariant
                    i <= items.len(),
                    views == node_views(items@),
                    document@ == NodeView::List(views),
                    read_first(views, object_reader(), i as nat) == Ok::<
                        Seq<crate::sql::object::DBObjectView>,
                        DocumentErrorView,
                    >(object_views(objects@)),
                decreases items.len() - i,
            {
                let ghost before = object_views(objects@);
                match read_object(&items[i]) {
                    Ok(object) => {
                        objects.push(object);
                        assert(object_views(objects@) =~= before.push(object@));
                    },
                    Err(e) => {
                        proof {
                            lemma_read_fails(views, object_reader(), i as nat, views.len());
                        }
                        return Err(e);
                    },
                }
                i = i + 1;
            }
            Ok(objects)
        },
    }
}

} // verus!

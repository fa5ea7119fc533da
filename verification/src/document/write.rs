//! Writing documents: from fields, paths and objects to a tree.

use vstd::prelude::*;
use crate::document::codec::{
    action_name, field_type_name, names_node, object_type_name, optional_text_node, pair,
    path_node, permission_name,
};
use crate::document::fields::{attributes_node, field_node};
use crate::document::objects::{
    field_entries, fields_node, foreign_key_entries, foreign_key_node, foreign_keys_node,
    grant_entries, index_entries, key_entries, kind_name, object_entries, object_node,
    objects_node, owner_entries, schema_entries, table_entries,
};
use crate::document::tree::{
    entry, entry_views, list_node, mapping_node, node_views, text_node, Entry, Node, NodeView,
};
use crate::sql::constraint::{FKOn, ForeignKey, Index};
use crate::sql::field::{field_views, optional_text, Field, FieldAttributes, FieldType};
use crate::sql::object::{object_views, DBObject};
use crate::sql::path::{ObjectPath, ObjectType};
use crate::sql::permission::{Grant, GrantType, Owner};
use crate::sql::schema::Schema;
use crate::sql::table::{optional_foreign_key_views, Table};
use crate::text::texts;

verus! {

/// The name of a column type.
fn field_type_word(t: FieldType) -> (s: &'static str)
    ensures
        s@ == field_type_name(t),
{
    match t {
        FieldType::Int => "int",
        FieldType::BigInt => "bigint",
        FieldType::Txt => "text",
        FieldType::Dbl => "double",
        FieldType::Bool => "bool",
        FieldType::AutoInc => "auto_increment",
    }
}

/// The name of an object kind.
fn object_type_word(t: ObjectType) -> (s: &'static str)
    ensures
        s@ == object_type_name(t),
{
    match t {
        ObjectType::Table => "Table",
        ObjectType::Sequence => "Sequence",
        ObjectType::Schema => "Schema",
    }
}

/// The name of a foreign-key action.
fn action_word(a: FKOn) -> (s: &'static str)
    ensures
        s@ == action_name(a),
{
    match a {
        FKOn::Restrict => "restrict",
        FKOn::Cascade => "cascade",
    }
}

/// The name of a permission.
fn permission_word(p: GrantType) -> (s: &'static str)
    ensures
        s@ == permission_name(p),
{
    match p {
        GrantType::Select => "Select",
        GrantType::Insert => "Insert",
        GrantType::Update => "Update",
        GrantType::Delete => "Delete",
        GrantType::Truncate => "Truncate",
        GrantType::References => "References",
        GrantType::Trigger => "Trigger",
        GrantType::All => "All",
        GrantType::Usage => "Usage",
    }
}

/// The node of an optional text.
fn optional_text_to_node(text: &Option<String>) -> (node: Node)
    ensures
        node@ == optional_text_node(optional_text(*text)),
{
    match text {
        Some(t) => text_node(t.as_str()),
        None => Node::Null,
    }
}

/// The list node of some names.
fn names_to_node(names: &Vec<String>) -> (node: Node)
    ensures
        node@ == names_node(texts(names@)),
{
    let mut items: Vec<Node> = Vec::new();
    let mut i: usize = 0;
    while i < names.len()
        invariant
            i <= names.len(),
            items@.len() == i,
            forall|j: int| 0 <= j < i ==> (#[trigger] items@[j])@ == NodeView::Text(names@[j]@),
        decreases names.len() - i,
    {
        items.push(text_node(names[i].as_str()));
        i = i + 1;
    }
    assert(node_views(items@) =~= names_node(texts(names@))->List_0);
    list_node(items)
}

/// Adds an entry to the entries of a mapping.
fn push_entry(entries: &mut Vec<Entry>, key: &str, value: Node)
    ensures
        entry_views(final(entries)@) == entry_views(old(entries)@).push(pair(key@, value@)),
{
    let ghost before = entry_views(entries@);
    entries.push(entry(key, value));
    assert(entry_views(entries@) =~= before.push(pair(key@, value@)));
}

/// No entries.
fn no_entries() -> (entries: Vec<Entry>)
    ensures
        entry_views(entries@) == Seq::<(NodeView, NodeView)>::empty(),
{
    let entries: Vec<Entry> = Vec::new();
    assert(entry_views(entries@) =~= Seq::<(NodeView, NodeView)>::empty());
    entries
}

/// Writes a path.
pub fn path_to_node(path: &ObjectPath) -> (node: Node)
    ensures
        node@ == path_node(path@),
{
    let mut entries = no_entries();
    push_entry(&mut entries, "schema", optional_text_to_node(&path.schema));
    push_entry(&mut entries, "name", text_node(path.name.as_str()));
    push_entry(&mut entries, "type", text_node(object_type_word(path.otype)));
    assert(entry_views(entries@) =~= path_node(path@)->Mapping_0);
    mapping_node(entries)
}

/// Writes the attributes of a field.
pub fn attributes_to_node(attributes: &FieldAttributes) -> (node: Node)
    ensures
        node@ == attributes_node(attributes@),
{
    let mut entries = no_entries();
    push_entry(&mut entries, "type", text_node(field_type_word(attributes.dtype)));
    push_entry(&mut entries, "unique", Node::Bool(attributes.unique));
    push_entry(&mut entries, "empty", Node::Bool(attributes.empty));
    push_entry(&mut entries, "roster", Node::Bool(attributes.roster));
    push_entry(&mut entries, "defval", optional_text_to_node(&attributes.defval));
    push_entry(&mut entries, "primary_key", Node::Bool(attributes.primary_key));
    push_entry(&mut entries, "index", Node::Bool(attributes.index));
    push_entry(&mut entries, "only_db", Node::Bool(attributes.only_db));
    push_entry(&mut entries, "meta_name", optional_text_to_node(&attributes.meta_name));
    assert(entry_views(entries@) =~= attributes_node(attributes@)->Mapping_0);
    mapping_node(entries)
}

/// Adds the entries that describe a field.
fn push_field(entries: &mut Vec<Entry>, field: &Field)
    ensures
        entry_views(final(entries)@) == entry_views(old(entries)@) + field_entries(field@),
{
    let ghost before = entry_views(entries@);
    push_entry(entries, "name", text_node(field.name.as_str()));
    push_entry(entries, "attributes", attributes_to_node(&field.attributes));
    assert(entry_views(entries@) =~= before + field_entries(field@));
}

/// Writes a field.
pub fn field_to_node(field: &Field) -> (node: Node)
    ensures
        node@ == field_node(field@),
{
    let mut entries = no_entries();
    push_field(&mut entries, field);
    assert(entry_views(entries@) =~= field_entries(field@));
    mapping_node(entries)
}

/// Adds the entries that describe a foreign key.
fn push_foreign_key(entries: &mut Vec<Entry>, key: &ForeignKey)
    ensures
        entry_views(final(entries)@) == entry_views(old(entries)@) + foreign_key_entries(key@),
{
    let ghost before = entry_views(entries@);
    push_entry(entries, "table", path_to_node(&key.table));
    push_entry(entries, "fields", names_to_node(&key.fields));
    push_entry(entries, "ref_table", path_to_node(&key.ref_table));
    push_entry(entries, "ref_fields", names_to_node(&key.ref_fields));
    push_entry(entries, "on_delete", text_node(action_word(key.on_delete)));
    push_entry(entries, "on_update", text_node(action_word(key.on_update)));
    assert(entry_views(entries@) =~= before + foreign_key_entries(key@));
}

/// Writes a foreign key.
pub fn foreign_key_to_node(key: &ForeignKey) -> (node: Node)
    ensures
        node@ == foreign_key_node(key@),
{
    let mut entries = no_entries();
    push_foreign_key(&mut entries, key);
    assert(entry_views(entries@) =~= foreign_key_entries(key@));
    mapping_node(entries)
}

/// Writes a list of fields.
fn fields_to_node(fields: &Vec<Field>) -> (node: Node)
    ensures
        node@ == fields_node(field_views(fields@)),
{
    let mut items: Vec<Node> = Vec::new();
    let mut i: usize = 0;
    while i < fields.len()
        invariant
            i <= fields.len(),
            items@.len() == i,
            forall|j: int| 0 <= j < i ==> (#[trigger] items@[j])@ == field_node(fields@[j]@),
        decreases fields.len() - i,
    {
        items.push(field_to_node(&fields[i]));
        i = i + 1;
    }
    assert(node_views(items@) =~= fields_node(field_views(fields@))->List_0);
    list_node(items)
}

/// Writes an optional list of foreign keys.
pub fn foreign_keys_to_node(keys: &Option<Vec<ForeignKey>>) -> (node: Node)
    ensures
        node@ == foreign_keys_node(optional_foreign_key_views(*keys)),
{
    match keys {
        None => Node::Null,
        Some(ks) => {
            let mut items: Vec<Node> = Vec::new();
            let mut i: usize = 0;
            while i < ks.len()
                invariant
                    i <= ks.len(),
                    items@.len() == i,
                    forall|j: int|
                        0 <= j < i ==> (#[trigger] items@[j])@ == foreign_key_node(ks@[j]@),
                decreases ks.len() - i,
            {
                items.push(foreign_key_to_node(&ks[i]));
                i = i + 1;
            }
            assert(node_views(items@) =~= foreign_keys_node(
                optional_foreign_key_views(*keys),
            )->List_0);
            list_node(items)
        },
    }
}

/// Adds the entries that describe a key.
fn push_key(entries: &mut Vec<Entry>, name: &String, fields: &Vec<String>)
    ensures
        entry_views(final(entries)@) == entry_views(old(entries)@) + key_entries(
            crate::sql::constraint::KeyView { name: name@, fields: texts(fields@) },
        ),
{
    let ghost before = entry_views(entries@);
    push_entry(entries, "name", text_node(name.as_str()));
    push_entry(entries, "fields", names_to_node(fields));
    assert(entry_views(entries@) =~= before + key_entries(
        crate::sql::constraint::KeyView { name: name@, fields: texts(fields@) },
    ));
}

/// Writes an object of any kind.
pub fn object_to_node(object: &DBObject) -> (node: Node)
    ensures
        node@ == object_node(object@),
{
    let mut entries = no_entries();
    let ghost tag = seq![pair("tag"@, NodeView::Text(kind_name(object@)))];
    match object {
        DBObject::Schema(x) => {
            push_entry(&mut entries, "tag", text_node("Schema"));
            push_entry(&mut entries, "name", text_node(x.name.as_str()));
            push_entry(&mut entries, "owner", text_node(x.owner.as_str()));
            assert(entry_views(entries@) =~= tag + schema_entries(x@));
        },
        DBObject::Table(x) => {
            push_entry(&mut entries, "tag", text_node("Table"));
            push_entry(&mut entries, "path", path_to_node(&x.path));
            push_entry(&mut entries, "fields", fields_to_node(&x.fields));
            push_entry(&mut entries, "fks", foreign_keys_to_node(&x.fks));
            assert(entry_views(entries@) =~= tag + table_entries(x@));
        },
        DBObject::Grant(x) => {
            push_entry(&mut entries, "tag", text_node("Grant"));
            push_entry(&mut entries, "permission", text_node(permission_word(x.permission)));
            push_entry(&mut entries, "to", text_node(x.to.as_str()));
            push_entry(&mut entries, "on", path_to_node(&x.on));
            assert(entry_views(entries@) =~= tag + grant_entries(x@));
        },
        DBObject::Owner(x) => {
            push_entry(&mut entries, "tag", text_node("Owner"));
            push_entry(&mut entries, "to", text_node(x.to.as_str()));
            push_entry(&mut entries, "of", path_to_node(&x.of));
            assert(entry_views(entries@) =~= tag + owner_entries(x@));
        },
        DBObject::Index(x) => {
            push_entry(&mut entries, "tag", text_node("Index"));
            push_entry(&mut entries, "table", path_to_node(&x.table));
            push_entry(&mut entries, "fields", names_to_node(&x.fields));
            assert(entry_views(entries@) =~= tag + index_entries(x@));
        },
        DBObject::PrimaryKey(x) => {
            push_entry(&mut entries, "tag", text_node("PrimaryKey"));
            push_key(&mut entries, &x.name, &x.fields);
            assert(entry_views(entries@) =~= tag + key_entries(x@));
        },
        DBObject::UniqueKey(x) => {
            push_entry(&mut entries, "tag", text_node("UniqueKey"));
            push_key(&mut entries, &x.name, &x.fields);
            assert(entry_views(entries@) =~= tag + key_entries(x@));
        },
        DBObject::ForeignKey(x) => {
            push_entry(&mut entries, "tag", text_node("ForeignKey"));
            push_foreign_key(&mut entries, x);
            assert(entry_views(entries@) =~= tag + foreign_key_entries(x@));
        },
        DBObject::Field(x) => {
            push_entry(&mut entries, "tag", text_node("Field"));
            push_field(&mut entries, x);
            assert(entry_views(entries@) =~= tag + field_entries(x@));
        },
    }
    assert(entry_views(entries@) == tag + object_entries(object@));
    mapping_node(entries)
}

/// Writes the document that describes some objects.
pub fn objects_to_node(objects: &Vec<DBObject>) -> (node: Node)
    ensures
        node@ == objects_node(object_views(objects@)),
{
    let mut items: Vec<Node> = Vec::new();
    let mut i: usize = 0;
    while i < objects.len()
        invariant
            i <= objects.len(),
            items@.len() == i,
            forall|j: int| 0 <= j < i ==> (#[trigger] items@[j])@ == object_node(objects@[j]@),
        decreases objects.len() - i,
    {
        items.push(object_to_node(&objects[i]));
        i = i + 1;
    }
    assert(node_views(items@) =~= objects_node(object_views(objects@))->List_0);
    list_node(items)
}

} // verus!

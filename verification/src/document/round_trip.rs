//! Reading gives back what was written: the proofs, kind by kind.

use vstd::prelude::*;
use crate::document::codec::{
    action_name, lemma_action_names, lemma_path_round_trip, lemma_permission_names, names_node,
    pair, path_node, permission_name, required_names, required_text, all_texts,
    DocumentErrorView,
};
use crate::document::fields::{attributes_node, field_node, field_of, lemma_field_round_trip};
use crate::document::objects::{
    field_entries, field_reader, fields_node, foreign_key_entries, foreign_key_node,
    foreign_key_of, foreign_key_reader, foreign_keys_at, foreign_keys_node, grant_entries,
    grant_of, index_entries, index_of, key_entries, key_of, kind_name, lemma_read_first_gives,
    object_entries, object_node, object_of, object_reader, objects_node, objects_of,
    owner_entries, owner_of, path_at, read_all, schema_entries, schema_of, table_entries,
    table_of,
};
use crate::document::tree::{find_from, NodeView};
use crate::sql::constraint::{ForeignKeyView, IndexView, KeyView};
use crate::sql::field::FieldView;
use crate::sql::object::DBObjectView;
use crate::sql::path::ObjectPathView;
use crate::sql::permission::{GrantView, OwnerView};
use crate::sql::schema::SchemaView;
use crate::sql::table::TableView;

verus! {

/// What is needed of an object for it to be read back: a table must be
/// one that can be built.
pub open spec fn readable(o: DBObjectView) -> bool {
    o matches DBObjectView::Table(t) ==> t.well_formed()
}

/// How long each key is and how it starts, which tells the keys of a
/// mapping apart.
pub proof fn lemma_key_shapes()
    ensures
        "tag"@.len() == 3 && "tag"@[0] == 't',
        "name"@.len() == 4 && "name"@[0] == 'n',
        "owner"@.len() == 5 && "owner"@[0] == 'o',
        "permission"@.len() == 10 && "permission"@[0] == 'p',
        "to"@.len() == 2 && "to"@[0] == 't',
        "on"@.len() == 2 && "on"@[0] == 'o' && "on"@[1] == 'n',
        "of"@.len() == 2 && "of"@[0] == 'o' && "of"@[1] == 'f',
        "table"@.len() == 5 && "table"@[0] == 't',
        "fields"@.len() == 6 && "fields"@[0] == 'f',
        "ref_table"@.len() == 9 && "ref_table"@[0] == 'r',
        "ref_fields"@.len() == 10 && "ref_fields"@[0] == 'r',
        "on_delete"@.len() == 9 && "on_delete"@[0] == 'o' && "on_delete"@[3] == 'd',
        "on_update"@.len() == 9 && "on_update"@[0] == 'o' && "on_update"@[3] == 'u',
        "path"@.len() == 4 && "path"@[0] == 'p',
        "fks"@.len() == 3 && "fks"@[0] == 'f',
        "attributes"@.len() == 10 && "attributes"@[0] == 'a',
        "schema"@.len() == 6 && "schema"@[0] == 's',
        "type"@.len() == 4 && "type"@[0] == 't',
{
    reveal_strlit("tag");
    reveal_strlit("name");
    reveal_strlit("owner");
    reveal_strlit("permission");
    reveal_strlit("to");
    reveal_strlit("on");
    reveal_strlit("of");
    reveal_strlit("table");
    reveal_strlit("fields");
    reveal_strlit("ref_table");
    reveal_strlit("ref_fields");
    reveal_strlit("on_delete");
    reveal_strlit("on_update");
    reveal_strlit("path");
    reveal_strlit("fks");
    reveal_strlit("attributes");
    reveal_strlit("schema");
    reveal_strlit("type");
}

/// How long the name of each kind is and how it starts, which tells the
/// kinds apart.
pub proof fn lemma_kind_shapes()
    ensures
        "Schema"@.len() == 6,
        "Table"@.len() == 5 && "Table"@[0] == 'T',
        "Grant"@.len() == 5 && "Grant"@[0] == 'G',
        "Owner"@.len() == 5 && "Owner"@[0] == 'O',
        "Index"@.len() == 5 && "Index"@[0] == 'I',
        "PrimaryKey"@.len() == 10 && "PrimaryKey"@[0] == 'P',
        "UniqueKey"@.len() == 9,
        "ForeignKey"@.len() == 10 && "ForeignKey"@[0] == 'F',
        "Field"@.len() == 5 && "Field"@[0] == 'F',
{
    reveal_strlit("Schema");
    reveal_strlit("Table");
    reveal_strlit("Grant");
    reveal_strlit("Owner");
    reveal_strlit("Index");
    reveal_strlit("PrimaryKey");
    reveal_strlit("UniqueKey");
    reveal_strlit("ForeignKey");
    reveal_strlit("Field");
}

/// An entry under another key in front of a mapping does not change what
/// the mapping holds under `key`.
pub proof fn lemma_find_skips(
    first: (NodeView, NodeView),
    entries: Seq<(NodeView, NodeView)>,
    key: Seq<char>,
    from: int,
)
    requires
        first.0 != NodeView::Text(key),
        0 <= from <= entries.len(),
    ensures
        find_from(seq![first] + entries, key, from + 1) == find_from(entries, key, from),
        from == 0 ==> find_from(seq![first] + entries, key, 0) == find_from(entries, key, 0),
    decreases entries.len() - from,
{
    let all = seq![first] + entries;
    if from < entries.len() {
        assert(all[from + 1] == entries[from]);
        lemma_find_skips(first, entries, key, from + 1);
    }
    if from == 0 {
        assert(all[0] == first);
    }
}

/// The mapping of some entries with the kind in front under `tag`.
pub open spec fn tagged(kind: Seq<char>, entries: Seq<(NodeView, NodeView)>) -> NodeView {
    NodeView::Mapping(seq![pair("tag"@, NodeView::Text(kind))] + entries)
}

/// What a tagged mapping holds under a key other than `tag` is what the
/// mapping holds without the tag.
pub proof fn lemma_tag_skipped(kind: Seq<char>, entries: Seq<(NodeView, NodeView)>, key: Seq<char>)
    requires
        key != "tag"@,
    ensures
        tagged(kind, entries).get(key) == NodeView::Mapping(entries).get(key),
{
    lemma_find_skips(pair("tag"@, NodeView::Text(kind)), entries, key, 0);
}

/// A tagged mapping holds its kind under `tag`.
pub proof fn lemma_tag_found(kind: Seq<char>, entries: Seq<(NodeView, NodeView)>)
    ensures
        tagged(kind, entries).get("tag"@) == Some(NodeView::Text(kind)),
{
    let first = pair("tag"@, NodeView::Text(kind));
    assert((seq![first] + entries)[0] == first);
}

/// Names are read back from the list that holds them.
pub proof fn lemma_names_round_trip(m: NodeView, key: Seq<char>, names: Seq<Seq<char>>)
    requires
        m.get(key) == Some(names_node(names)),
    ensures
        required_names(m, key) == Ok::<Seq<Seq<char>>, DocumentErrorView>(names),
{
    let items = names_node(names)->List_0;
    assert(all_texts(items, items.len() as int));
    assert(Seq::new(items.len(), |i: int| items[i]->Text_0) =~= names);
}

/// A path is read back from the mapping that holds it.
pub proof fn lemma_path_at_round_trip(m: NodeView, key: Seq<char>, path: ObjectPathView)
    requires
        m.get(key) == Some(path_node(path)),
    ensures
        path_at(m, key) == Ok::<ObjectPathView, DocumentErrorView>(path),
{
    lemma_path_round_trip(path);
}

/// A mapping that holds what describes a schema reads as the schema.
pub proof fn lemma_schema_read(m: NodeView, x: SchemaView)
    requires
        m is Mapping,
        m.get("name"@) == Some(NodeView::Text(x.name)),
        m.get("owner"@) == Some(NodeView::Text(x.owner)),
    ensures
        schema_of(m) == Ok::<SchemaView, DocumentErrorView>(x),
{
}

/// What the entries of a schema hold.
pub proof fn lemma_schema_entries(x: SchemaView)
    ensures
        NodeView::Mapping(schema_entries(x)).get("name"@) == Some(NodeView::Text(x.name)),
        NodeView::Mapping(schema_entries(x)).get("owner"@) == Some(NodeView::Text(x.owner)),
{
    lemma_key_shapes();
    reveal_with_fuel(find_from, 3);
}

/// A mapping that holds what describes a grant reads as the grant.
pub proof fn lemma_grant_read(m: NodeView, x: GrantView)
    requires
        m is Mapping,
        m.get("permission"@) == Some(NodeView::Text(permission_name(x.permission))),
        m.get("to"@) == Some(NodeView::Text(x.to)),
        m.get("on"@) == Some(path_node(x.on)),
    ensures
        grant_of(m) == Ok::<GrantView, DocumentErrorView>(x),
{
    lemma_permission_names(x.permission);
    lemma_path_at_round_trip(m, "on"@, x.on);
}

/// What the entries of a grant hold.
pub proof fn lemma_grant_entries(x: GrantView)
    ensures
        NodeView::Mapping(grant_entries(x)).get("permission"@) == Some(
            NodeView::Text(permission_name(x.permission)),
        ),
        NodeView::Mapping(grant_entries(x)).get("to"@) == Some(NodeView::Text(x.to)),
        NodeView::Mapping(grant_entries(x)).get("on"@) == Some(path_node(x.on)),
{
    lemma_key_shapes();
    reveal_with_fuel(find_from, 4);
}

/// A mapping that holds what describes an owner reads as the owner.
pub proof fn lemma_owner_read(m: NodeView, x: OwnerView)
    requires
        m is Mapping,
        m.get("to"@) == Some(NodeView::Text(x.to)),
        m.get("of"@) == Some(path_node(x.of)),
    ensures
        owner_of(m) == Ok::<OwnerView, DocumentErrorView>(x),
{
    lemma_path_at_round_trip(m, "of"@, x.of);
}

/// What the entries of an owner hold.
pub proof fn lemma_owner_entries(x: OwnerView)
    ensures
        NodeView::Mapping(owner_entries(x)).get("to"@) == Some(NodeView::Text(x.to)),
        NodeView::Mapping(owner_entries(x)).get("of"@) == Some(path_node(x.of)),
{
    lemma_key_shapes();
    reveal_with_fuel(find_from, 3);
}

/// A mapping that holds what describes an index reads as the index.
pub proof fn lemma_index_read(m: NodeView, x: IndexView)
    requires
        m is Mapping,
        m.get("table"@) == Some(path_node(x.table)),
        m.get("fields"@) == Some(names_node(x.fields)),
    ensures
        index_of(m) == Ok::<IndexView, DocumentErrorView>(x),
{
    lemma_path_at_round_trip(m, "table"@, x.table);
    lemma_names_round_trip(m, "fields"@, x.fields);
}

/// What the entries of an index hold.
pub proof fn lemma_index_entries(x: IndexView)
    ensures
        NodeView::Mapping(index_entries(x)).get("table"@) == Some(path_node(x.table)),
        NodeView::Mapping(index_entries(x)).get("fields"@) == Some(names_node(x.fields)),
{
    lemma_key_shapes();
    reveal_with_fuel(find_from, 3);
}

/// A mapping that holds what describes a key reads as the key.
pub proof fn lemma_key_read(m: NodeView, x: KeyView)
    requires
        m is Mapping,
        m.get("name"@) == Some(NodeView::Text(x.name)),
        m.get("fields"@) == Some(names_node(x.fields)),
    ensures
        key_of(m) == Ok::<KeyView, DocumentErrorView>(x),
{
    lemma_names_round_trip(m, "fields"@, x.fields);
}

/// What the entries of a key hold.
pub proof fn lemma_key_entries(x: KeyView)
    ensures
        NodeView::Mapping(key_entries(x)).get("name"@) == Some(NodeView::Text(x.name)),
        NodeView::Mapping(key_entries(x)).get("fields"@) == Some(names_node(x.fields)),
{
    lemma_key_shapes();
    reveal_with_fuel(find_from, 3);
}

/// A mapping that holds what describes a foreign key reads as the
/// foreign key.
pub proof fn lemma_foreign_key_read(m: NodeView, x: ForeignKeyView)
    requires
        m is Mapping,
        m.get("table"@) == Some(path_node(x.table)),
        m.get("fields"@) == Some(names_node(x.fields)),
        m.get("ref_table"@) == Some(path_node(x.ref_table)),
        m.get("ref_fields"@) == Some(names_node(x.ref_fields)),
        m.get("on_delete"@) == Some(NodeView::Text(action_name(x.on_delete))),
        m.get("on_update"@) == Some(NodeView::Text(action_name(x.on_update))),
    ensures
        foreign_key_of(m) == Ok::<ForeignKeyView, DocumentErrorView>(x),
{
    lemma_action_names(x.on_delete);
    lemma_action_names(x.on_update);
    lemma_path_at_round_trip(m, "table"@, x.table);
    lemma_names_round_trip(m, "fields"@, x.fields);
    lemma_path_at_round_trip(m, "ref_table"@, x.ref_table);
    lemma_names_round_trip(m, "ref_fields"@, x.ref_fields);
}

/// What the entries of a foreign key hold.
pub proof fn lemma_foreign_key_entries(x: ForeignKeyView)
    ensures
        NodeView::Mapping(foreign_key_entries(x)).get("table"@) == Some(path_node(x.table)),
        NodeView::Mapping(foreign_key_entries(x)).get("fields"@) == Some(names_node(x.fields)),
        NodeView::Mapping(foreign_key_entries(x)).get("ref_table"@) == Some(
            path_node(x.ref_table),
        ),
        NodeView::Mapping(foreign_key_entries(x)).get("ref_fields"@) == Some(
            names_node(x.ref_fields),
        ),
        NodeView::Mapping(foreign_key_entries(x)).get("on_delete"@) == Some(
            NodeView::Text(action_name(x.on_delete)),
        ),
        NodeView::Mapping(foreign_key_entries(x)).get("on_update"@) == Some(
            NodeView::Text(action_name(x.on_update)),
        ),
{
    lemma_key_shapes();
    reveal_with_fuel(find_from, 7);
}

/// A foreign key is read back from the node that describes it.
pub proof fn lemma_foreign_key_round_trip(k: ForeignKeyView)
    ensures
        foreign_key_of(foreign_key_node(k)) == Ok::<ForeignKeyView, DocumentErrorView>(k),
{
    lemma_foreign_key_entries(k);
    lemma_foreign_key_read(foreign_key_node(k), k);
}

/// The fields of a table are read back from the list that holds them.
pub proof fn lemma_fields_round_trip(fields: Seq<FieldView>)
    ensures
        read_all(fields_node(fields)->List_0, field_reader()) == Ok::<
            Seq<FieldView>,
            DocumentErrorView,
        >(fields),
{
    let items = fields_node(fields)->List_0;
    assert forall|i: int| 0 <= i < items.len() implies field_reader()(#[trigger] items[i]) == Ok::<
        FieldView,
        DocumentErrorView,
    >(fields[i]) by {
        lemma_field_round_trip(fields[i]);
    }
    lemma_read_first_gives(items, field_reader(), fields, items.len());
    assert(fields.take(items.len() as int) =~= fields);
}

/// The foreign keys of a table are read back from the mapping that holds
/// them.
pub proof fn lemma_foreign_keys_round_trip(
    m: NodeView,
    key: Seq<char>,
    keys: Option<Seq<ForeignKeyView>>,
)
    requires
        m.get(key) == Some(foreign_keys_node(keys)),
    ensures
        foreign_keys_at(m, key) == Ok::<Option<Seq<ForeignKeyView>>, DocumentErrorView>(keys),
{
    match keys {
        Some(ks) => {
            let items = foreign_keys_node(keys)->List_0;
            assert forall|i: int| 0 <= i < items.len() implies foreign_key_reader()(
                #[trigger] items[i],
            ) == Ok::<ForeignKeyView, DocumentErrorView>(ks[i]) by {
                lemma_foreign_key_round_trip(ks[i]);
            }
            lemma_read_first_gives(items, foreign_key_reader(), ks, items.len());
            assert(ks.take(items.len() as int) =~= ks);
        },
        None => {},
    }
}

/// A mapping that holds what describes a table that can be built reads
/// as the table.
pub proof fn lemma_table_read(m: NodeView, x: TableView)
    requires
        x.well_formed(),
        m is Mapping,
        m.get("path"@) == Some(path_node(x.path)),
        m.get("fields"@) == Some(fields_node(x.fields)),
        m.get("fks"@) == Some(foreign_keys_node(x.fks)),
    ensures
        table_of(m) == Ok::<TableView, DocumentErrorView>(x),
{
    lemma_path_at_round_trip(m, "path"@, x.path);
    lemma_fields_round_trip(x.fields);
    lemma_foreign_keys_round_trip(m, "fks"@, x.fks);
}

/// What the entries of a table hold.
pub proof fn lemma_table_entries(x: TableView)
    ensures
        NodeView::Mapping(table_entries(x)).get("path"@) == Some(path_node(x.path)),
        NodeView::Mapping(table_entries(x)).get("fields"@) == Some(fields_node(x.fields)),
        NodeView::Mapping(table_entries(x)).get("fks"@) == Some(foreign_keys_node(x.fks)),
{
    lemma_key_shapes();
    reveal_with_fuel(find_from, 4);
}

/// A mapping that holds what describes a field reads as the field.
pub proof fn lemma_field_read(m: NodeView, x: FieldView)
    requires
        m is Mapping,
        m.get("name"@) == Some(NodeView::Text(x.name)),
        m.get("attributes"@) == Some(attributes_node(x.attributes)),
    ensures
        field_of(m) == Ok::<FieldView, DocumentErrorView>(x),
{
    crate::document::fields::lemma_attributes_round_trip(x.attributes);
}

/// What the entries of a field hold.
pub proof fn lemma_field_entries(x: FieldView)
    ensures
        NodeView::Mapping(field_entries(x)).get("name"@) == Some(NodeView::Text(x.name)),
        NodeView::Mapping(field_entries(x)).get("attributes"@) == Some(
            attributes_node(x.attributes),
        ),
{
    lemma_key_shapes();
    reveal_with_fuel(find_from, 3);
    assert(field_entries(x) == field_node(x)->Mapping_0);
}

/// The tag of an object's node names the kind of the object.
pub proof fn lemma_object_tag(o: DBObjectView)
    ensures
        object_node(o) == tagged(kind_name(o), object_entries(o)),
        object_node(o) is Mapping,
        required_text(object_node(o), "tag"@) == Ok::<Seq<char>, DocumentErrorView>(kind_name(o)),
{
    lemma_tag_found(kind_name(o), object_entries(o));
}

/// An object is read back from the node that describes it.
pub proof fn lemma_object_round_trip(o: DBObjectView)
    requires
        readable(o),
    ensures
        object_of(object_node(o)) == Ok::<DBObjectView, DocumentErrorView>(o),
{
    lemma_key_shapes();
    lemma_kind_shapes();
    lemma_object_tag(o);
    let node = object_node(o);
    let entries = object_entries(o);
    let kind = kind_name(o);
    match o {
        DBObjectView::Schema(x) => {
            lemma_schema_entries(x);
            lemma_tag_skipped(kind, entries, "name"@);
            lemma_tag_skipped(kind, entries, "owner"@);
            lemma_schema_read(node, x);
        },
        DBObjectView::Table(x) => {
            lemma_table_entries(x);
            lemma_tag_skipped(kind, entries, "path"@);
            lemma_tag_skipped(kind, entries, "fields"@);
            lemma_tag_skipped(kind, entries, "fks"@);
            lemma_table_read(node, x);
        },
        DBObjectView::Grant(x) => {
            lemma_grant_entries(x);
            lemma_tag_skipped(kind, entries, "permission"@);
            lemma_tag_skipped(kind, entries, "to"@);
            lemma_tag_skipped(kind, entries, "on"@);
            lemma_grant_read(node, x);
        },
        DBObjectView::Owner(x) => {
            lemma_owner_entries(x);
            lemma_tag_skipped(kind, entries, "to"@);
            lemma_tag_skipped(kind, entries, "of"@);
            lemma_owner_read(node, x);
        },
        DBObjectView::Index(x) => {
            lemma_index_entries(x);
            lemma_tag_skipped(kind, entries, "table"@);
            lemma_tag_skipped(kind, entries, "fields"@);
            lemma_index_read(node, x);
        },
        DBObjectView::PrimaryKey(x) => {
            lemma_key_entries(x);
            lemma_tag_skipped(kind, entries, "name"@);
            lemma_tag_skipped(kind, entries, "fields"@);
            lemma_key_read(node, x);
        },
        DBObjectView::UniqueKey(x) => {
            lemma_key_entries(x);
            lemma_tag_skipped(kind, entries, "name"@);
            lemma_tag_skipped(kind, entries, "fields"@);
            lemma_key_read(node, x);
        },
        DBObjectView::ForeignKey(x) => {
            lemma_foreign_key_entries(x);
            lemma_tag_skipped(kind, entries, "table"@);
            lemma_tag_skipped(kind, entries, "fields"@);
            lemma_tag_skipped(kind, entries, "ref_table"@);
            lemma_tag_skipped(kind, entries, "ref_fields"@);
            lemma_tag_skipped(kind, entries, "on_delete"@);
            lemma_tag_skipped(kind, entries, "on_update"@);
            lemma_foreign_key_read(node, x);
        },
        DBObjectView::Field(x) => {
            lemma_field_entries(x);
            lemma_tag_skipped(kind, entries, "name"@);
            lemma_tag_skipped(kind, entries, "attributes"@);
            lemma_field_read(node, x);
        },
    }
}

/// Objects are read back from the document that describes them.
pub proof fn lemma_objects_round_trip(objects: Seq<DBObjectView>)
    requires
        forall|i: int| 0 <= i < objects.len() ==> readable(#[trigger] objects[i]),
    ensures
        objects_of(objects_node(objects)) == Ok::<Seq<DBObjectView>, DocumentErrorView>(objects),
{
    let items = objects_node(objects)->List_0;
    assert forall|i: int| 0 <= i < items.len() implies object_reader()(#[trigger] items[i]) == Ok::<
        DBObjectView,
        DocumentErrorView,
    >(objects[i]) by {
        lemma_object_round_trip(objects[i]);
    }
    lemma_read_first_gives(items, object_reader(), objects, items.len());
    assert(objects.take(items.len() as int) =~= objects);
}

} // verus!

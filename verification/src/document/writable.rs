//! What is written for objects and fields can be written as it stands: it
//! holds no numbers and no tags, and no mapping in it has a key twice.

use vstd::prelude::*;
use crate::document::codec::{names_node, pair, path_node};
use crate::document::fields::{attributes_node, field_node, lemma_attribute_keys};
use crate::document::objects::{
    field_entries, fields_node, foreign_key_entries, foreign_key_node, foreign_keys_node,
    grant_entries, index_entries, key_entries, kind_name, object_entries, object_node,
    objects_node, owner_entries, schema_entries, table_entries,
};
use crate::document::round_trip::{lemma_key_shapes, tagged};
use crate::document::tree::NodeView;
use crate::sql::constraint::ForeignKeyView;
use crate::sql::field::{FieldAttributesView, FieldView};
use crate::sql::object::DBObjectView;
use crate::sql::path::ObjectPathView;

verus! {

/// Every key is a text, every value can be written, and no two keys are
/// the same.
pub open spec fn entries_writable(entries: Seq<(NodeView, NodeView)>) -> bool {
    &&& forall|i: int|
        0 <= i < entries.len() ==> (#[trigger] entries[i]).0 is Text && entries[i].1.is_writable()
    &&& forall|i: int, j: int|
        0 <= i < j < entries.len() ==> (#[trigger] entries[i]).0 != (#[trigger] entries[j]).0
}

/// A mapping of such entries can be written.
pub proof fn lemma_mapping_writable(entries: Seq<(NodeView, NodeView)>)
    requires
        entries_writable(entries),
    ensures
        NodeView::Mapping(entries).is_writable(),
{
}

/// With the kind in front under `tag`, entries under other keys stay such
/// entries.
pub proof fn lemma_tagged_writable(kind: Seq<char>, entries: Seq<(NodeView, NodeView)>)
    requires
        entries_writable(entries),
        forall|i: int| 0 <= i < entries.len() ==> (#[trigger] entries[i]).0 != NodeView::Text("tag"@),
    ensures
        tagged(kind, entries).is_writable(),
{
    reveal_with_fuel(NodeView::is_writable, 2);
    let first = pair("tag"@, NodeView::Text(kind));
    let all = seq![first] + entries;
    assert forall|i: int| 0 <= i < all.len() implies (#[trigger] all[i]).0 is Text
        && all[i].1.is_writable() by {
        if i > 0 {
            assert(all[i] == entries[i - 1]);
        }
    }
    assert forall|i: int, j: int| 0 <= i < j < all.len() implies (#[trigger] all[i]).0 != (
    #[trigger] all[j]).0 by {
        assert(all[j] == entries[j - 1]);
        if i > 0 {
            assert(all[i] == entries[i - 1]);
        }
    }
    lemma_mapping_writable(all);
}

/// The node of a path can be written.
pub proof fn lemma_path_writable(p: ObjectPathView)
    ensures
        path_node(p).is_writable(),
{
    reveal_with_fuel(NodeView::is_writable, 2);
    lemma_key_shapes();
    lemma_mapping_writable(path_node(p)->Mapping_0);
}

/// The node of a list of names can be written.
pub proof fn lemma_names_writable(names: Seq<Seq<char>>)
    ensures
        names_node(names).is_writable(),
{
    reveal_with_fuel(NodeView::is_writable, 2);
}

/// The node of some attributes can be written.
pub proof fn lemma_attributes_writable(a: FieldAttributesView)
    ensures
        attributes_node(a).is_writable(),
{
    reveal_with_fuel(NodeView::is_writable, 2);
    lemma_attribute_keys();
    lemma_mapping_writable(attributes_node(a)->Mapping_0);
}

/// The entries of a field are such entries.
pub proof fn lemma_field_entries_writable(f: FieldView)
    ensures
        entries_writable(field_entries(f)),
        field_node(f).is_writable(),
{
    lemma_key_shapes();
    lemma_attributes_writable(f.attributes);
    reveal_with_fuel(NodeView::is_writable, 2);
    lemma_mapping_writable(field_entries(f));
}

/// The entries of a foreign key are such entries.
pub proof fn lemma_foreign_key_entries_writable(k: ForeignKeyView)
    ensures
        entries_writable(foreign_key_entries(k)),
        foreign_key_node(k).is_writable(),
{
    lemma_key_shapes();
    lemma_path_writable(k.table);
    lemma_path_writable(k.ref_table);
    lemma_names_writable(k.fields);
    lemma_names_writable(k.ref_fields);
    reveal_with_fuel(NodeView::is_writable, 2);
    lemma_mapping_writable(foreign_key_entries(k));
}

/// The node of a list of fields can be written.
pub proof fn lemma_fields_writable(fields: Seq<FieldView>)
    ensures
        fields_node(fields).is_writable(),
{
    reveal_with_fuel(NodeView::is_writable, 2);
    assert forall|i: int| 0 <= i < fields.len() implies (#[trigger] fields_node(
        fields,
    )->List_0[i]).is_writable() by {
        lemma_field_entries_writable(fields[i]);
    }
}

/// The node of an optional list of foreign keys can be written.
pub proof fn lemma_foreign_keys_writable(keys: Option<Seq<ForeignKeyView>>)
    ensures
        foreign_keys_node(keys).is_writable(),
{
    reveal_with_fuel(NodeView::is_writable, 2);
    if let Some(ks) = keys {
        assert forall|i: int| 0 <= i < ks.len() implies (#[trigger] foreign_keys_node(
            keys,
        )->List_0[i]).is_writable() by {
            lemma_foreign_key_entries_writable(ks[i]);
        }
    }
}

/// The entries of an object are such entries, and none is under `tag`.
pub proof fn lemma_object_entries_writable(o: DBObjectView)
    ensures
        entries_writable(object_entries(o)),
        forall|i: int|
            0 <= i < object_entries(o).len() ==> (#[trigger] object_entries(o)[i]).0
                != NodeView::Text("tag"@),
{
    lemma_key_shapes();
    reveal_with_fuel(NodeView::is_writable, 2);
    match o {
        DBObjectView::Schema(x) => {
            assert(entries_writable(schema_entries(x)));
        },
        DBObjectView::Table(x) => {
            lemma_path_writable(x.path);
            lemma_fields_writable(x.fields);
            lemma_foreign_keys_writable(x.fks);
            assert(entries_writable(table_entries(x)));
        },
        DBObjectView::Grant(x) => {
            lemma_path_writable(x.on);
            assert(entries_writable(grant_entries(x)));
        },
        DBObjectView::Owner(x) => {
            lemma_path_writable(x.of);
            assert(entries_writable(owner_entries(x)));
        },
        DBObjectView::Index(x) => {
            lemma_path_writable(x.table);
            lemma_names_writable(x.fields);
            assert(entries_writable(index_entries(x)));
        },
        DBObjectView::PrimaryKey(x) => {
            lemma_names_writable(x.fields);
            assert(entries_writable(key_entries(x)));
        },
        DBObjectView::UniqueKey(x) => {
            lemma_names_writable(x.fields);
            assert(entries_writable(key_entries(x)));
        },
        DBObjectView::ForeignKey(x) => {
            lemma_foreign_key_entries_writable(x);
        },
        DBObjectView::Field(x) => {
            lemma_field_entries_writable(x);
        },
    }
}

/// The node of an object can be written.
pub proof fn lemma_object_writable(o: DBObjectView)
    ensures
        object_node(o).is_writable(),
{
    lemma_object_entries_writable(o);
    lemma_tagged_writable(kind_name(o), object_entries(o));
}

/// The document of some objects can be written.
pub proof fn lemma_objects_writable(objects: Seq<DBObjectView>)
    ensures
        objects_node(objects).is_writable(),
{
    reveal_with_fuel(NodeView::is_writable, 2);
    assert forall|i: int| 0 <= i < objects.len() implies (#[trigger] objects_node(
        objects,
    )->List_0[i]).is_writable() by {
        lemma_object_writable(objects[i]);
    }
}

} // verus!

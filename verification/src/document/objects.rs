//! Objects in documents: what each kind of object is written as, what a
//! document is read as, and the proof that reading gives back what was
//! written.

use vstd::prelude::*;
use crate::document::codec::{
    action_name, action_named, names_node, pair, path_node, path_of, permission_name,
    permission_named, required_names, required_node, required_text, DocumentErrorView,
};
use crate::document::fields::{field_node, field_of};
use crate::document::tree::NodeView;
use crate::sql::constraint::{FKOn, ForeignKeyView, IndexView, KeyView};
use crate::sql::field::FieldView;
use crate::sql::object::DBObjectView;
use crate::sql::path::ObjectPathView;
use crate::sql::permission::{GrantView, OwnerView};
use crate::sql::schema::SchemaView;
use crate::sql::table::TableView;

verus! {

/// The results of reading the first `n` items, each by `read`: the values
/// in order, or the error of the first item that cannot be read.
pub open spec fn read_first<T>(
    items: Seq<NodeView>,
    read: spec_fn(NodeView) -> Result<T, DocumentErrorView>,
    n: nat,
) -> Result<Seq<T>, DocumentErrorView>
    decreases n,
{
    if n == 0 {
        Ok(Seq::empty())
    } else {
        match read_first(items, read, (n - 1) as nat) {
            Err(e) => Err(e),
            Ok(earlier) => match read(items[n - 1]) {
                Err(e) => Err(e),
                Ok(value) => Ok(earlier.push(value)),
            },
        }
    }
}

/// The results of reading every item by `read`.
pub open spec fn read_all<T>(
    items: Seq<NodeView>,
    read: spec_fn(NodeView) -> Result<T, DocumentErrorView>,
) -> Result<Seq<T>, DocumentErrorView> {
    read_first(items, read, items.len())
}

/// Where every item reads as the value at its place, the items read as the
/// values.
pub proof fn lemma_read_first_gives<T>(
    items: Seq<NodeView>,
    read: spec_fn(NodeView) -> Result<T, DocumentErrorView>,
    values: Seq<T>,
    n: nat,
)
    requires
        n <= items.len(),
        n <= values.len(),
        forall|i: int| 0 <= i < n ==> read(#[trigger] items[i]) == Ok::<T, DocumentErrorView>(values[i]),
    ensures
        read_first(items, read, n) == Ok::<Seq<T>, DocumentErrorView>(values.take(n as int)),
    decreases n,
{
    if n == 0 {
        assert(values.take(0) =~= Seq::<T>::empty());
    } else {
        lemma_read_first_gives(items, read, values, (n - 1) as nat);
        assert(read(items[n - 1]) == Ok::<T, DocumentErrorView>(values[n - 1]));
        assert(values.take(n - 1).push(values[n - 1]) =~= values.take(n as int));
    }
}

/// The list that mapping `m` must hold under `key`.
pub open spec fn required_list(m: NodeView, key: Seq<char>) -> Result<
    Seq<NodeView>,
    DocumentErrorView,
> {
    match m.get(key) {
        None => Err(DocumentErrorView::MissingKey(key)),
        Some(NodeView::List(items)) => Ok(items),
        Some(_) => Err(DocumentErrorView::WrongType(key)),
    }
}

/// The list that mapping `m` may hold under `key`; a missing key and null
/// stand for none.
pub open spec fn optional_list(m: NodeView, key: Seq<char>) -> Result<
    Option<Seq<NodeView>>,
    DocumentErrorView,
> {
    match m.get(key) {
        None => Ok(None),
        Some(NodeView::Null) => Ok(None),
        Some(NodeView::List(items)) => Ok(Some(items)),
        Some(_) => Err(DocumentErrorView::WrongType(key)),
    }
}

/// The foreign-key action that mapping `m` may hold under `key`; a missing
/// key stands for restrict.
pub open spec fn action_at(m: NodeView, key: Seq<char>) -> Result<FKOn, DocumentErrorView> {
    match m.get(key) {
        None => Ok(FKOn::Restrict),
        Some(NodeView::Text(t)) => match action_named(t) {
            Some(action) => Ok(action),
            None => Err(DocumentErrorView::UnknownValue(t)),
        },
        Some(_) => Err(DocumentErrorView::WrongType(key)),
    }
}

/// The path that mapping `m` must hold under `key`.
pub open spec fn path_at(m: NodeView, key: Seq<char>) -> Result<ObjectPathView, DocumentErrorView> {
    match required_node(m, key) {
        Err(e) => Err(e),
        Ok(described) => path_of(described),
    }
}

/// The schema that a node describes: a mapping with `name` and `owner`.
pub open spec fn schema_of(node: NodeView) -> Result<SchemaView, DocumentErrorView> {
    if !(node is Mapping) {
        Err(DocumentErrorView::NotAMapping)
    } else {
        match required_text(node, "name"@) {
            Err(e) => Err(e),
            Ok(name) => match required_text(node, "owner"@) {
                Err(e) => Err(e),
                Ok(owner) => Ok(SchemaView { name, owner }),
            },
        }
    }
}

/// The entries that describe a schema.
pub open spec fn schema_entries(s: SchemaView) -> Seq<(NodeView, NodeView)> {
    seq![pair("name"@, NodeView::Text(s.name)), pair("owner"@, NodeView::Text(s.owner))]
}

/// The grant that a node describes: a mapping with `permission`, `to` and
/// `on`.
pub open spec fn grant_of(node: NodeView) -> Result<GrantView, DocumentErrorView> {
    if !(node is Mapping) {
        Err(DocumentErrorView::NotAMapping)
    } else {
        match required_text(node, "permission"@) {
            Err(e) => Err(e),
            Ok(name) => match permission_named(name) {
                None => Err(DocumentErrorView::UnknownValue(name)),
                Some(permission) => match required_text(node, "to"@) {
                    Err(e) => Err(e),
                    Ok(to) => match path_at(node, "on"@) {
                        Err(e) => Err(e),
                        Ok(on) => Ok(GrantView { permission, to, on }),
                    },
                },
            },
        }
    }
}

/// The entries that describe a grant.
pub open spec fn grant_entries(g: GrantView) -> Seq<(NodeView, NodeView)> {
    seq![
        pair("permission"@, NodeView::Text(permission_name(g.permission))),
        pair("to"@, NodeView::Text(g.to)),
        pair("on"@, path_node(g.on)),
    ]
}

/// The owner that a node describes: a mapping with `to` and `of`.
pub open spec fn owner_of(node: NodeView) -> Result<OwnerView, DocumentErrorView> {
    if !(node is Mapping) {
        Err(DocumentErrorView::NotAMapping)
    } else {
        match required_text(node, "to"@) {
            Err(e) => Err(e),
            Ok(to) => match path_at(node, "of"@) {
                Err(e) => Err(e),
                Ok(of) => Ok(OwnerView { to, of }),
            },
        }
    }
}

/// The entries that describe an owner.
pub open spec fn owner_entries(o: OwnerView) -> Seq<(NodeView, NodeView)> {
    seq![pair("to"@, NodeView::Text(o.to)), pair("of"@, path_node(o.of))]
}

/// The index that a node describes: a mapping with `table` and `fields`.
pub open spec fn index_of(node: NodeView) -> Result<IndexView, DocumentErrorView> {
    if !(node is Mapping) {
        Err(DocumentErrorView::NotAMapping)
    } else {
        match path_at(node, "table"@) {
            Err(e) => Err(e),
            Ok(table) => match required_names(node, "fields"@) {
                Err(e) => Err(e),
                Ok(fields) => Ok(IndexView { table, fields }),
            },
        }
    }
}

/// The entries that describe an index.
pub open spec fn index_entries(x: IndexView) -> Seq<(NodeView, NodeView)> {
    seq![pair("table"@, path_node(x.table)), pair("fields"@, names_node(x.fields))]
}

/// The key that a node describes: a mapping with `name` and `fields`.
pub open spec fn key_of(node: NodeView) -> Result<KeyView, DocumentErrorView> {
    if !(node is Mapping) {
        Err(DocumentErrorView::NotAMapping)
    } else {
        match required_text(node, "name"@) {
            Err(e) => Err(e),
            Ok(name) => match required_names(node, "fields"@) {
                Err(e) => Err(e),
                Ok(fields) => Ok(KeyView { name, fields }),
            },
        }
    }
}

/// The entries that describe a key.
pub open spec fn key_entries(k: KeyView) -> Seq<(NodeView, NodeView)> {
    seq![pair("name"@, NodeView::Text(k.name)), pair("fields"@, names_node(k.fields))]
}

/// The foreign key that a node describes: a mapping with `table`,
/// `fields`, `ref_table`, `ref_fields` and, restrict by default,
/// `on_delete` and `on_update`.
pub open spec fn foreign_key_of(node: NodeView) -> Result<ForeignKeyView, DocumentErrorView> {
    if !(node is Mapping) {
        Err(DocumentErrorView::NotAMapping)
    } else {
        match path_at(node, "table"@) {
            Err(e) => Err(e),
            Ok(table) => match required_names(node, "fields"@) {
                Err(e) => Err(e),
                Ok(fields) => match path_at(node, "ref_table"@) {
                    Err(e) => Err(e),
                    Ok(ref_table) => match required_names(node, "ref_fields"@) {
                        Err(e) => Err(e),
                        Ok(ref_fields) => match action_at(node, "on_delete"@) {
                            Err(e) => Err(e),
                            Ok(on_delete) => match action_at(node, "on_update"@) {
                                Err(e) => Err(e),
                                Ok(on_update) => Ok(
                                    ForeignKeyView {
                                        table,
                                        fields,
                                        ref_table,
                                        ref_fields,
                                        on_delete,
                                        on_update,
                                    },
                                ),
                            },
                        },
                    },
                },
            },
        }
    }
}

/// The entries that describe a foreign key.
pub open spec fn foreign_key_entries(k: ForeignKeyView) -> Seq<(NodeView, NodeView)> {
    seq![
        pair("table"@, path_node(k.table)),
        pair("fields"@, names_node(k.fields)),
        pair("ref_table"@, path_node(k.ref_table)),
        pair("ref_fields"@, names_node(k.ref_fields)),
        pair("on_delete"@, NodeView::Text(action_name(k.on_delete))),
        pair("on_update"@, NodeView::Text(action_name(k.on_update))),
    ]
}

/// How a field is read out of a list.
pub open spec fn field_reader() -> spec_fn(NodeView) -> Result<FieldView, DocumentErrorView> {
    |node: NodeView| field_of(node)
}

/// How a foreign key is read out of a list.
pub open spec fn foreign_key_reader() -> spec_fn(NodeView) -> Result<
    ForeignKeyView,
    DocumentErrorView,
> {
    |node: NodeView| foreign_key_of(node)
}

/// The foreign keys that mapping `m` may hold under `key`.
pub open spec fn foreign_keys_at(m: NodeView, key: Seq<char>) -> Result<
    Option<Seq<ForeignKeyView>>,
    DocumentErrorView,
> {
    match optional_list(m, key) {
        Err(e) => Err(e),
        Ok(None) => Ok(None),
        Ok(Some(items)) => match read_all(items, foreign_key_reader()) {
            Err(e) => Err(e),
            Ok(keys) => Ok(Some(keys)),
        },
    }
}

/// The table that a node describes: a mapping with `path`, `fields` and,
/// optional, `fks`. The table must be one that can be built.
pub open spec fn table_of(node: NodeView) -> Result<TableView, DocumentErrorView> {
    if !(node is Mapping) {
        Err(DocumentErrorView::NotAMapping)
    } else {
        match path_at(node, "path"@) {
            Err(e) => Err(e),
            Ok(path) => match required_list(node, "fields"@) {
                Err(e) => Err(e),
                Ok(items) => match read_all(items, field_reader()) {
                    Err(e) => Err(e),
                    Ok(fields) => match foreign_keys_at(node, "fks"@) {
                        Err(e) => Err(e),
                        Ok(fks) => {
                            let table = TableView { path, fields, fks };
                            match table.fault() {
                                Some(fault) => Err(DocumentErrorView::Table(fault)),
                                None => Ok(table),
                            }
                        },
                    },
                },
            },
        }
    }
}

/// The list node of some fields.
pub open spec fn fields_node(fields: Seq<FieldView>) -> NodeView {
    NodeView::List(Seq::new(fields.len(), |i: int| field_node(fields[i])))
}

/// The node of a foreign key that stands in a list.
pub open spec fn foreign_key_node(k: ForeignKeyView) -> NodeView {
    NodeView::Mapping(foreign_key_entries(k))
}

/// The node of an optional list of foreign keys: the list, or null.
pub open spec fn foreign_keys_node(keys: Option<Seq<ForeignKeyView>>) -> NodeView {
    match keys {
        Some(ks) => NodeView::List(Seq::new(ks.len(), |i: int| foreign_key_node(ks[i]))),
        None => NodeView::Null,
    }
}

/// The entries that describe a table.
pub open spec fn table_entries(t: TableView) -> Seq<(NodeView, NodeView)> {
    seq![
        pair("path"@, path_node(t.path)),
        pair("fields"@, fields_node(t.fields)),
        pair("fks"@, foreign_keys_node(t.fks)),
    ]
}

/// The entries that describe a field.
pub open spec fn field_entries(f: FieldView) -> Seq<(NodeView, NodeView)> {
    field_node(f)->Mapping_0
}

/// The name of the kind of an object, which is what its `tag` holds.
pub open spec fn kind_name(o: DBObjectView) -> Seq<char> {
    match o {
        DBObjectView::Schema(_) => "Schema"@,
        DBObjectView::Table(_) => "Table"@,
        DBObjectView::Grant(_) => "Grant"@,
        DBObjectView::Owner(_) => "Owner"@,
        DBObjectView::Index(_) => "Index"@,
        DBObjectView::PrimaryKey(_) => "PrimaryKey"@,
        DBObjectView::UniqueKey(_) => "UniqueKey"@,
        DBObjectView::ForeignKey(_) => "ForeignKey"@,
        DBObjectView::Field(_) => "Field"@,
    }
}

/// The entries that describe an object, the tag left out.
pub open spec fn object_entries(o: DBObjectView) -> Seq<(NodeView, NodeView)> {
    match o {
        DBObjectView::Schema(x) => schema_entries(x),
        DBObjectView::Table(x) => table_entries(x),
        DBObjectView::Grant(x) => grant_entries(x),
        DBObjectView::Owner(x) => owner_entries(x),
        DBObjectView::Index(x) => index_entries(x),
        DBObjectView::PrimaryKey(x) => key_entries(x),
        DBObjectView::UniqueKey(x) => key_entries(x),
        DBObjectView::ForeignKey(x) => foreign_key_entries(x),
        DBObjectView::Field(x) => field_entries(x),
    }
}

/// The node that describes an object: a mapping that starts with the
/// object's kind under `tag` and goes on with what describes the object.
pub open spec fn object_node(o: DBObjectView) -> NodeView {
    NodeView::Mapping(seq![pair("tag"@, NodeView::Text(kind_name(o)))] + object_entries(o))
}

/// The object that a node describes: a mapping whose `tag` names the kind
/// and whose other entries describe an object of that kind.
pub open spec fn object_of(node: NodeView) -> Result<DBObjectView, DocumentErrorView> {
    if !(node is Mapping) {
        Err(DocumentErrorView::NotAMapping)
    } else {
        match required_text(node, "tag"@) {
            Err(e) => Err(e),
            Ok(kind) => if kind == "Schema"@ {
                match schema_of(node) {
                    Err(e) => Err(e),
                    Ok(x) => Ok(DBObjectView::Schema(x)),
                }
            } else if kind == "Table"@ {
                match table_of(node) {
                    Err(e) => Err(e),
                    Ok(x) => Ok(DBObjectView::Table(x)),
                }
            } else if kind == "Grant"@ {
                match grant_of(node) {
                    Err(e) => Err(e),
                    Ok(x) => Ok(DBObjectView::Grant(x)),
                }
            } else if kind == "Owner"@ {
                match owner_of(node) {
                    Err(e) => Err(e),
                    Ok(x) => Ok(DBObjectView::Owner(x)),
                }
            } else if kind == "Index"@ {
                match index_of(node) {
                    Err(e) => Err(e),
                    Ok(x) => Ok(DBObjectView::Index(x)),
                }
            } else if kind == "PrimaryKey"@ {
                match key_of(node) {
                    Err(e) => Err(e),
                    Ok(x) => Ok(DBObjectView::PrimaryKey(x)),
                }
            } else if kind == "UniqueKey"@ {
                match key_of(node) {
                    Err(e) => Err(e),
                    Ok(x) => Ok(DBObjectView::UniqueKey(x)),
                }
            } else if kind == "ForeignKey"@ {
                match foreign_key_of(node) {
                    Err(e) => Err(e),
                    Ok(x) => Ok(DBObjectView::ForeignKey(x)),
                }
            } else if kind == "Field"@ {
                match field_of(node) {
                    Err(e) => Err(e),
                    Ok(x) => Ok(DBObjectView::Field(x)),
                }
            } else {
                Err(DocumentErrorView::UnknownValue(kind))
            },
        }
    }
}

/// How an object is read out of a list.
pub open spec fn object_reader() -> spec_fn(NodeView) -> Result<DBObjectView, DocumentErrorView> {
    |node: NodeView| object_of(node)
}

/// The objects that a document describes: a list of objects.
pub open spec fn objects_of(document: NodeView) -> Result<Seq<DBObjectView>, DocumentErrorView> {
    match document {
        NodeView::List(items) => read_all(items, object_reader()),
        _ => Err(DocumentErrorView::NotAList),
    }
}

/// The document that describes some objects.
pub open spec fn objects_node(objects: Seq<DBObjectView>) -> NodeView {
    NodeView::List(Seq::new(objects.len(), |i: int| object_node(objects[i])))
}

} // verus!

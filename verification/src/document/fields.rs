//! Fields in documents: the attributes of a field, a field, and the
//! ordered mapping from field names to attributes.

use vstd::prelude::*;
use crate::document::codec::{
    field_type_name, field_type_named, flag, lemma_field_type_names, optional_text,
    optional_text_node, pair, required_node, required_text, DocumentErrorView,
};
use crate::document::tree::{find_from, NodeView};
use crate::sql::field::{FieldAttributesView, FieldType, FieldView};

verus! {

/// The column type that mapping `m` may hold under `key`; a missing key
/// stands for text.
pub open spec fn field_type_at(m: NodeView, key: Seq<char>) -> Result<
    FieldType,
    DocumentErrorView,
> {
    match m.get(key) {
        None => Ok(FieldType::Txt),
        Some(NodeView::Text(t)) => match field_type_named(t) {
            Some(dtype) => Ok(dtype),
            None => Err(DocumentErrorView::UnknownValue(t)),
        },
        Some(_) => Err(DocumentErrorView::WrongType(key)),
    }
}

/// The attributes that a node describes: a mapping in which every key may
/// be missing. `type` is text by default, `empty` is true by default, the
/// other flags are false by default, `defval` and `meta_name` are none by
/// default.
pub open spec fn attributes_of(node: NodeView) -> Result<FieldAttributesView, DocumentErrorView> {
    if !(node is Mapping) {
        Err(DocumentErrorView::NotAMapping)
    } else {
        match field_type_at(node, "type"@) {
            Err(e) => Err(e),
            Ok(dtype) => match flag(node, "unique"@, false) {
                Err(e) => Err(e),
                Ok(unique) => match flag(node, "empty"@, true) {
                    Err(e) => Err(e),
                    Ok(empty) => match flag(node, "roster"@, false) {
                        Err(e) => Err(e),
                        Ok(roster) => match optional_text(node, "defval"@) {
                            Err(e) => Err(e),
                            Ok(defval) => match flag(node, "primary_key"@, false) {
                                Err(e) => Err(e),
                                Ok(primary_key) => match flag(node, "index"@, false) {
                                    Err(e) => Err(e),
                                    Ok(index) => match flag(node, "only_db"@, false) {
                                        Err(e) => Err(e),
                                        Ok(only_db) => match optional_text(node, "meta_name"@) {
                                            Err(e) => Err(e),
                                            Ok(meta_name) => Ok(
                                                FieldAttributesView {
                                                    dtype,
                                                    unique,
                                                    empty,
                                                    roster,
                                                    defval,
                                                    primary_key,
                                                    index,
                                                    only_db,
                                                    meta_name,
                                                },
                                            ),
                                        },
                                    },
                                },
                            },
                        },
                    },
                },
            },
        }
    }
}

/// The node that describes some attributes: every key is written.
pub open spec fn attributes_node(a: FieldAttributesView) -> NodeView {
    NodeView::Mapping(
        seq![
            pair("type"@, NodeView::Text(field_type_name(a.dtype))),
            pair("unique"@, NodeView::Bool(a.unique)),
            pair("empty"@, NodeView::Bool(a.empty)),
            pair("roster"@, NodeView::Bool(a.roster)),
            pair("defval"@, optional_text_node(a.defval)),
            pair("primary_key"@, NodeView::Bool(a.primary_key)),
            pair("index"@, NodeView::Bool(a.index)),
            pair("only_db"@, NodeView::Bool(a.only_db)),
            pair("meta_name"@, optional_text_node(a.meta_name)),
        ],
    )
}

/// The keys of an attributes mapping differ from one another.
pub proof fn lemma_attribute_keys()
    ensures
        "type"@ != "unique"@,
        "type"@ != "empty"@,
        "type"@ != "roster"@,
        "type"@ != "defval"@,
        "type"@ != "primary_key"@,
        "type"@ != "index"@,
        "type"@ != "only_db"@,
        "type"@ != "meta_name"@,
        "unique"@ != "empty"@,
        "unique"@ != "roster"@,
        "unique"@ != "defval"@,
        "unique"@ != "primary_key"@,
        "unique"@ != "index"@,
        "unique"@ != "only_db"@,
        "unique"@ != "meta_name"@,
        "empty"@ != "roster"@,
        "empty"@ != "defval"@,
        "empty"@ != "primary_key"@,
        "empty"@ != "index"@,
        "empty"@ != "only_db"@,
        "empty"@ != "meta_name"@,
        "roster"@ != "defval"@,
        "roster"@ != "primary_key"@,
        "roster"@ != "index"@,
        "roster"@ != "only_db"@,
        "roster"@ != "meta_name"@,
        "defval"@ != "primary_key"@,
        "defval"@ != "index"@,
        "defval"@ != "only_db"@,
        "defval"@ != "meta_name"@,
        "primary_key"@ != "index"@,
        "primary_key"@ != "only_db"@,
        "primary_key"@ != "meta_name"@,
        "index"@ != "only_db"@,
        "index"@ != "meta_name"@,
        "only_db"@ != "meta_name"@,
{
    reveal_strlit("type");
    reveal_strlit("unique");
    reveal_strlit("empty");
    reveal_strlit("roster");
    reveal_strlit("defval");
    reveal_strlit("primary_key");
    reveal_strlit("index");
    reveal_strlit("only_db");
    reveal_strlit("meta_name");
    assert("type"@.len() == 4);
    assert("unique"@.len() == 6 && "unique"@[0] == 'u');
    assert("empty"@.len() == 5 && "empty"@[0] == 'e');
    assert("roster"@.len() == 6 && "roster"@[0] == 'r');
    assert("defval"@.len() == 6 && "defval"@[0] == 'd');
    assert("primary_key"@.len() == 11);
    assert("index"@.len() == 5 && "index"@[0] == 'i');
    assert("only_db"@.len() == 7);
    assert("meta_name"@.len() == 9);
}

/// Attributes are read back from the node that describes them.
pub proof fn lemma_attributes_round_trip(a: FieldAttributesView)
    ensures
        attributes_of(attributes_node(a)) == Ok::<FieldAttributesView, DocumentErrorView>(a),
{
    lemma_attribute_keys();
    lemma_field_type_names(a.dtype);
    reveal_with_fuel(find_from, 10);
    let node = attributes_node(a);
    assert(node.get("type"@) == Some(NodeView::Text(field_type_name(a.dtype))));
    assert(node.get("unique"@) == Some(NodeView::Bool(a.unique)));
    assert(node.get("empty"@) == Some(NodeView::Bool(a.empty)));
    assert(node.get("roster"@) == Some(NodeView::Bool(a.roster)));
    assert(node.get("defval"@) == Some(optional_text_node(a.defval)));
    assert(node.get("primary_key"@) == Some(NodeView::Bool(a.primary_key)));
    assert(node.get("index"@) == Some(NodeView::Bool(a.index)));
    assert(node.get("only_db"@) == Some(NodeView::Bool(a.only_db)));
    assert(node.get("meta_name"@) == Some(optional_text_node(a.meta_name)));
}

/// The field that a node describes: a mapping with `name` and
/// `attributes`.
pub open spec fn field_of(node: NodeView) -> Result<FieldView, DocumentErrorView> {
    if !(node is Mapping) {
        Err(DocumentErrorView::NotAMapping)
    } else {
        match required_text(node, "name"@) {
            Err(e) => Err(e),
            Ok(name) => match required_node(node, "attributes"@) {
                Err(e) => Err(e),
                Ok(described) => match attributes_of(described) {
                    Err(e) => Err(e),
                    Ok(attributes) => Ok(FieldView { name, attributes }),
                },
            },
        }
    }
}

/// The node that describes a field.
pub open spec fn field_node(f: FieldView) -> NodeView {
    NodeView::Mapping(
        seq![
            pair("name"@, NodeView::Text(f.name)),
            pair("attributes"@, attributes_node(f.attributes)),
        ],
    )
}

/// A field is read back from the node that describes it.
pub proof fn lemma_field_round_trip(f: FieldView)
    ensures
        field_of(field_node(f)) == Ok::<FieldView, DocumentErrorView>(f),
{
    reveal_strlit("name");
    reveal_strlit("attributes");
    assert("name"@.len() == 4);
    assert("attributes"@.len() == 10);
    reveal_with_fuel(find_from, 3);
    lemma_attributes_round_trip(f.attributes);
    let node = field_node(f);
    assert(node.get("name"@) == Some(NodeView::Text(f.name)));
    assert(node.get("attributes"@) == Some(attributes_node(f.attributes)));
}

} // verus!

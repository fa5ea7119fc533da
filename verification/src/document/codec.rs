//! What the parts of a document mean: names of enumerated values, and the
//! reading of texts, flags and lists of names out of a mapping.

use vstd::prelude::*;
use crate::document::tree::{find_from, NodeView};
use crate::sql::constraint::FKOn;
use crate::sql::field::FieldType;
use crate::sql::path::{ObjectPathView, ObjectType};
use crate::sql::permission::GrantType;
use crate::sql::table::{TableError, TableErrorView};
use crate::text::texts;

verus! {

/// Why a document cannot be read or written.
#[derive(Debug)]
pub enum DocumentError {
    /// The text is not YAML; the parser's message.
    Syntax(String),
    /// A mapping has a key that is set aside for the resolving of merge
    /// keys.
    ReservedKey,
    /// A merge key has a value that is no mapping and no list of mappings.
    InvalidMergeValue,
    /// Two fields that are to be keys of one mapping have the same name;
    /// the names that repeat earlier ones.
    RepeatedNames(Vec<String>),
    /// The YAML writer failed.
    Unwritable,
    /// A list was expected.
    NotAList,
    /// A mapping was expected.
    NotAMapping,
    /// A mapping has a key that is no text where field names are keys.
    KeyNotText,
    /// A mapping lacks the key.
    MissingKey(String),
    /// The value under the key is of the wrong kind.
    WrongType(String),
    /// The text is none of the values that can stand in its place.
    UnknownValue(String),
    /// The document describes a table that cannot be built.
    Table(TableError),
}

/// Mathematical model of a [`DocumentError`]. The parser's message is left
/// out: nothing is known of it.
pub enum DocumentErrorView {
    Syntax,
    ReservedKey,
    InvalidMergeValue,
    RepeatedNames(Seq<Seq<char>>),
    Unwritable,
    NotAList,
    NotAMapping,
    KeyNotText,
    MissingKey(Seq<char>),
    WrongType(Seq<char>),
    UnknownValue(Seq<char>),
    Table(TableErrorView),
}

impl View for DocumentError {
    type V = DocumentErrorView;

    open spec fn view(&self) -> DocumentErrorView {
        match self {
            DocumentError::Syntax(_) => DocumentErrorView::Syntax,
            DocumentError::ReservedKey => DocumentErrorView::ReservedKey,
            DocumentError::InvalidMergeValue => DocumentErrorView::InvalidMergeValue,
            DocumentError::RepeatedNames(names) => DocumentErrorView::RepeatedNames(texts(names@)),
            DocumentError::Unwritable => DocumentErrorView::Unwritable,
            DocumentError::NotAList => DocumentErrorView::NotAList,
            DocumentError::NotAMapping => DocumentErrorView::NotAMapping,
            DocumentError::KeyNotText => DocumentErrorView::KeyNotText,
            DocumentError::MissingKey(key) => DocumentErrorView::MissingKey(key@),
            DocumentError::WrongType(key) => DocumentErrorView::WrongType(key@),
            DocumentError::UnknownValue(text) => DocumentErrorView::UnknownValue(text@),
            DocumentError::Table(error) => DocumentErrorView::Table(error@),
        }
    }
}

/// The name of a column type in a document.
pub open spec fn field_type_name(t: FieldType) -> Seq<char> {
    match t {
        FieldType::Int => "int"@,
        FieldType::BigInt => "bigint"@,
        FieldType::Txt => "text"@,
        FieldType::Dbl => "double"@,
        FieldType::Bool => "bool"@,
        FieldType::AutoInc => "auto_increment"@,
    }
}

/// The column type that a document calls `name`.
pub open spec fn field_type_named(name: Seq<char>) -> Option<FieldType> {
    if name == "int"@ {
        Some(FieldType::Int)
    } else if name == "bigint"@ {
        Some(FieldType::BigInt)
    } else if name == "text"@ {
        Some(FieldType::Txt)
    } else if name == "double"@ {
        Some(FieldType::Dbl)
    } else if name == "bool"@ {
        Some(FieldType::Bool)
    } else if name == "auto_increment"@ {
        Some(FieldType::AutoInc)
    } else {
        None
    }
}

/// Every column type is read back from its name.
pub proof fn lemma_field_type_names(t: FieldType)
    ensures
        field_type_named(field_type_name(t)) == Some(t),
{
    reveal_strlit("int");
    reveal_strlit("bigint");
    reveal_strlit("text");
    reveal_strlit("double");
    reveal_strlit("bool");
    reveal_strlit("auto_increment");
    assert("int"@.len() == 3);
    assert("bigint"@.len() == 6 && "bigint"@[0] == 'b');
    assert("text"@.len() == 4 && "text"@[0] == 't');
    assert("double"@.len() == 6 && "double"@[0] == 'd');
    assert("bool"@.len() == 4 && "bool"@[0] == 'b');
    assert("auto_increment"@.len() == 14);
}

/// The name of an object kind in a document.
pub open spec fn object_type_name(t: ObjectType) -> Seq<char> {
    match t {
        ObjectType::Table => "Table"@,
        ObjectType::Sequence => "Sequence"@,
        ObjectType::Schema => "Schema"@,
    }
}

/// The object kind that a document calls `name`.
pub open spec fn object_type_named(name: Seq<char>) -> Option<ObjectType> {
    if name == "Table"@ {
        Some(ObjectType::Table)
    } else if name == "Sequence"@ {
        Some(ObjectType::Sequence)
    } else if name == "Schema"@ {
        Some(ObjectType::Schema)
    } else {
        None
    }
}

/// Every object kind is read back from its name.
pub proof fn lemma_object_type_names(t: ObjectType)
    ensures
        object_type_named(object_type_name(t)) == Some(t),
{
    reveal_strlit("Table");
    reveal_strlit("Sequence");
    reveal_strlit("Schema");
    assert("Table"@.len() == 5);
    assert("Sequence"@.len() == 8);
    assert("Schema"@.len() == 6);
}

/// The name of a foreign-key action in a document.
pub open spec fn action_name(a: FKOn) -> Seq<char> {
    match a {
        FKOn::Restrict => "restrict"@,
        FKOn::Cascade => "cascade"@,
    }
}

/// The foreign-key action that a document calls `name`. The name may
/// start with a capital letter.
pub open spec fn action_named(name: Seq<char>) -> Option<FKOn> {
    if name == "restrict"@ || name == "Restrict"@ {
        Some(FKOn::Restrict)
    } else if name == "cascade"@ || name == "Cascade"@ {
        Some(FKOn::Cascade)
    } else {
        None
    }
}

/// Every foreign-key action is read back from its name.
pub proof fn lemma_action_names(a: FKOn)
    ensures
        action_named(action_name(a)) == Some(a),
{
    reveal_strlit("restrict");
    reveal_strlit("cascade");
    reveal_strlit("Restrict");
    reveal_strlit("Cascade");
    assert("restrict"@.len() == 8 && "restrict"@[0] == 'r');
    assert("cascade"@.len() == 7 && "cascade"@[0] == 'c');
    assert("Restrict"@.len() == 8 && "Restrict"@[0] == 'R');
    assert("Cascade"@.len() == 7 && "Cascade"@[0] == 'C');
}

/// The name of a permission in a document.
pub open spec fn permission_name(p: GrantType) -> Seq<char> {
    match p {
        GrantType::Select => "Select"@,
        GrantType::Insert => "Insert"@,
        GrantType::Update => "Update"@,
        GrantType::Delete => "Delete"@,
        GrantType::Truncate => "Truncate"@,
        GrantType::References => "References"@,
        GrantType::Trigger => "Trigger"@,
        GrantType::All => "All"@,
        GrantType::Usage => "Usage"@,
    }
}

/// The permission that a document calls `name`.
pub open spec fn permission_named(name: Seq<char>) -> Option<GrantType> {
    if name == "Select"@ {
        Some(GrantType::Select)
    } else if name == "Insert"@ {
        Some(GrantType::Insert)
    } else if name == "Update"@ {
        Some(GrantType::Update)
    } else if name == "Delete"@ {
        Some(GrantType::Delete)
    } else if name == "Truncate"@ {
        Some(GrantType::Truncate)
    } else if name == "References"@ {
        Some(GrantType::References)
    } else if name == "Trigger"@ {
        Some(GrantType::Trigger)
    } else if name == "All"@ {
        Some(GrantType::All)
    } else if name == "Usage"@ {
        Some(GrantType::Usage)
    } else {
        None
    }
}

/// Every permission is read back from its name.
pub proof fn lemma_permission_names(p: GrantType)
    ensures
        permission_named(permission_name(p)) == Some(p),
{
    reveal_strlit("Select");
    reveal_strlit("Insert");
    reveal_strlit("Update");
    reveal_strlit("Delete");
    reveal_strlit("Truncate");
    reveal_strlit("References");
    reveal_strlit("Trigger");
    reveal_strlit("All");
    reveal_strlit("Usage");
    assert("Select"@.len() == 6 && "Select"@[0] == 'S');
    assert("Insert"@.len() == 6 && "Insert"@[0] == 'I');
    assert("Update"@.len() == 6 && "Update"@[0] == 'U');
    assert("Delete"@.len() == 6 && "Delete"@[0] == 'D');
    assert("Truncate"@.len() == 8);
    assert("References"@.len() == 10);
    assert("Trigger"@.len() == 7);
    assert("All"@.len() == 3);
    assert("Usage"@.len() == 5);
}

/// A result as contracts see it: the value and the error by their views.
pub open spec fn seen<T: View>(r: Result<T, DocumentError>) -> Result<T::V, DocumentErrorView> {
    match r {
        Ok(value) => Ok(value@),
        Err(error) => Err(error@),
    }
}

/// The entry of `value` under the text `key`.
pub open spec fn pair(key: Seq<char>, value: NodeView) -> (NodeView, NodeView) {
    (NodeView::Text(key), value)
}

/// The node of an optional text: the text, or null.
pub open spec fn optional_text_node(text: Option<Seq<char>>) -> NodeView {
    match text {
        Some(t) => NodeView::Text(t),
        None => NodeView::Null,
    }
}

/// The list node of some names.
pub open spec fn names_node(names: Seq<Seq<char>>) -> NodeView {
    NodeView::List(Seq::new(names.len(), |i: int| NodeView::Text(names[i])))
}

/// The text that mapping `m` must hold under `key`.
pub open spec fn required_text(m: NodeView, key: Seq<char>) -> Result<Seq<char>, DocumentErrorView> {
    match m.get(key) {
        None => Err(DocumentErrorView::MissingKey(key)),
        Some(NodeView::Text(t)) => Ok(t),
        Some(_) => Err(DocumentErrorView::WrongType(key)),
    }
}

/// The text that mapping `m` may hold under `key`; a missing key and null
/// stand for none.
pub open spec fn optional_text(m: NodeView, key: Seq<char>) -> Result<
    Option<Seq<char>>,
    DocumentErrorView,
> {
    match m.get(key) {
        None => Ok(None),
        Some(NodeView::Null) => Ok(None),
        Some(NodeView::Text(t)) => Ok(Some(t)),
        Some(_) => Err(DocumentErrorView::WrongType(key)),
    }
}

/// The flag that mapping `m` may hold under `key`; a missing key stands
/// for `default`.
pub open spec fn flag(m: NodeView, key: Seq<char>, default: bool) -> Result<bool, DocumentErrorView> {
    match m.get(key) {
        None => Ok(default),
        Some(NodeView::Bool(b)) => Ok(b),
        Some(_) => Err(DocumentErrorView::WrongType(key)),
    }
}

/// Every one of the first `n` items is a text.
pub open spec fn all_texts(items: Seq<NodeView>, n: int) -> bool {
    forall|i: int| 0 <= i < n ==> (#[trigger] items[i]) is Text
}

/// The names that mapping `m` must hold under `key`, as a list of texts.
pub open spec fn required_names(m: NodeView, key: Seq<char>) -> Result<
    Seq<Seq<char>>,
    DocumentErrorView,
> {
    match m.get(key) {
        None => Err(DocumentErrorView::MissingKey(key)),
        Some(NodeView::List(items)) => if all_texts(items, items.len() as int) {
            Ok(Seq::new(items.len(), |i: int| items[i]->Text_0))
        } else {
            Err(DocumentErrorView::WrongType(key))
        },
        Some(_) => Err(DocumentErrorView::WrongType(key)),
    }
}

/// The node that mapping `m` must hold under `key`.
pub open spec fn required_node(m: NodeView, key: Seq<char>) -> Result<NodeView, DocumentErrorView> {
    match m.get(key) {
        None => Err(DocumentErrorView::MissingKey(key)),
        Some(node) => Ok(node),
    }
}

/// The object kind that mapping `m` may hold under `key`; a missing key
/// stands for a table.
pub open spec fn object_type_at(m: NodeView, key: Seq<char>) -> Result<
    ObjectType,
    DocumentErrorView,
> {
    match m.get(key) {
        None => Ok(ObjectType::Table),
        Some(NodeView::Text(t)) => match object_type_named(t) {
            Some(kind) => Ok(kind),
            None => Err(DocumentErrorView::UnknownValue(t)),
        },
        Some(_) => Err(DocumentErrorView::WrongType(key)),
    }
}

/// The object kind of a path: what the mapping holds under `type`, or,
/// where it has no such key, under `otype`; a table where it has neither.
pub open spec fn path_kind(m: NodeView) -> Result<ObjectType, DocumentErrorView> {
    if m.get("type"@) is Some {
        object_type_at(m, "type"@)
    } else {
        object_type_at(m, "otype"@)
    }
}

/// The path that a node describes: a mapping with `schema` (optional),
/// `name` and `type` (optional, a table by default).
pub open spec fn path_of(node: NodeView) -> Result<ObjectPathView, DocumentErrorView> {
    if !(node is Mapping) {
        Err(DocumentErrorView::NotAMapping)
    } else {
        match optional_text(node, "schema"@) {
            Err(e) => Err(e),
            Ok(schema) => match required_text(node, "name"@) {
                Err(e) => Err(e),
                Ok(name) => match path_kind(node) {
                    Err(e) => Err(e),
                    Ok(otype) => Ok(ObjectPathView { schema, name, otype }),
                },
            },
        }
    }
}

/// The node that describes a path.
pub open spec fn path_node(p: ObjectPathView) -> NodeView {
    NodeView::Mapping(
        seq![
            pair("schema"@, optional_text_node(p.schema)),
            pair("name"@, NodeView::Text(p.name)),
            pair("type"@, NodeView::Text(object_type_name(p.otype))),
        ],
    )
}

/// A path is read back from the node that describes it.
pub proof fn lemma_path_round_trip(p: ObjectPathView)
    ensures
        path_of(path_node(p)) == Ok::<ObjectPathView, DocumentErrorView>(p),
{
    reveal_strlit("schema");
    reveal_strlit("name");
    reveal_strlit("type");
    assert("schema"@.len() == 6);
    assert("name"@.len() == 4 && "name"@[0] == 'n');
    assert("type"@.len() == 4 && "type"@[0] == 't');
    reveal_with_fuel(find_from, 4);
    lemma_object_type_names(p.otype);
    let node = path_node(p);
    assert(node.get("schema"@) == Some(optional_text_node(p.schema)));
    assert(node.get("name"@) == Some(NodeView::Text(p.name)));
    assert(node.get("type"@) == Some(NodeView::Text(object_type_name(p.otype))));
}

} // verus!

//! YAML text to document tree and back, by `serde_yaml` and
//! `yaml_merge_keys`.

use vstd::prelude::*;
use serde_yaml::value::{Tag, TaggedValue};
use serde_yaml::Value;
use crate::document::codec::{seen, DocumentError, DocumentErrorView};
use crate::document::tree::{Entry, Node, NodeView};

verus! {

/// `serde_yaml::Value`, a parsed YAML value. Nothing inside it is seen
/// here: what it holds goes by the name [`yaml_tree`].
#[verifier::external_type_specification]
#[verifier::external_body]
pub struct ExValue(serde_yaml::Value);

/// `serde_yaml::Error`, the error of the YAML parser and writer.
#[verifier::external_type_specification]
#[verifier::external_body]
pub struct ExYamlError(serde_yaml::Error);

/// `yaml_merge_keys::MergeKeyError`, the error of merge-key resolution.
#[verifier::external_type_specification]
#[verifier::external_body]
pub struct ExMergeKeyError(yaml_merge_keys::MergeKeyError);

/// The tree that a `serde_yaml::Value` holds, as [`node_of`] copies it
/// out.
pub uninterp spec fn yaml_tree(value: serde_yaml::Value) -> NodeView;

/// The tree of the value that `serde_yaml::from_str` parses YAML text to,
/// if it parses.
pub uninterp spec fn parsed_yaml(text: Seq<char>) -> Option<NodeView>;

/// The tree of the value that `yaml_merge_keys::merge_keys_serde` gives
/// for a value of the given tree, if it gives one.
pub uninterp spec fn merged_yaml(tree: NodeView) -> Option<NodeView>;

/// The text that `serde_yaml::to_string` writes for a value of the given
/// tree, if it writes one.
pub uninterp spec fn yaml_text(tree: NodeView) -> Option<Seq<char>>;

/// `serde_yaml::from_str` at `serde_yaml::Value`: parses YAML text. The
/// value it gives depends on the text alone.
#[verifier::external_body]
pub(crate) fn parse_yaml(text: &str) -> (r: Result<serde_yaml::Value, serde_yaml::Error>)
    ensures
        match r {
            Ok(value) => parsed_yaml(text@) == Some(yaml_tree(value)),
            Err(_) => parsed_yaml(text@) is None,
        },
{
    serde_yaml::from_str::<serde_yaml::Value>(text)
}

/// The key under which `yaml_merge_keys` keeps the tag of a tagged value
/// while it resolves merge keys.
pub open spec fn reserved_key() -> Seq<char> {
    "70235535-46bb-46f9-b535-31596b77733f"@
}

/// `yaml_merge_keys::merge_keys_serde`: resolves the merge keys (`<<`) of
/// a value. What it gives depends on the tree of the value alone. Left out
/// are the values in which a mapping has the reserved key: with an empty
/// text under that key the function panics.
#[verifier::external_body]
pub(crate) fn merge_yaml(doc: serde_yaml::Value) -> (r: Result<
    serde_yaml::Value,
    yaml_merge_keys::MergeKeyError,
>)
    requires
        !yaml_tree(doc).has_key(reserved_key()),
    ensures
        match r {
            Ok(value) => merged_yaml(yaml_tree(doc)) == Some(yaml_tree(value)),
            Err(_) => merged_yaml(yaml_tree(doc)) is None,
        },
{
    yaml_merge_keys::merge_keys_serde(doc)
}

/// `serde_yaml::to_string` at `serde_yaml::Value`: writes a value as YAML
/// text. The text depends on the tree of the value alone.
#[verifier::external_body]
pub(crate) fn write_yaml(value: &serde_yaml::Value) -> (r: Result<String, serde_yaml::Error>)
    ensures
        match r {
            Ok(text) => yaml_text(yaml_tree(*value)) == Some(text@),
            Err(_) => yaml_text(yaml_tree(*value)) is None,
        },
{
    serde_yaml::to_string(value)
}

/// The message of a `serde_yaml::Error`, by its `Display`. Nothing is
/// claimed of the text.
#[verifier::external_body]
pub(crate) fn yaml_error_message(error: &serde_yaml::Error) -> (message: String) {
    error.to_string()
}

/// Copies a `serde_yaml::Value` into a tree, variant by variant. A number
/// is kept as `serde_yaml::Number` displays it, a tag as
/// `serde_yaml::value::Tag` displays it.
#[verifier::external_body]
pub(crate) fn node_of(value: &serde_yaml::Value) -> (node: Node)
    ensures
        node@ == yaml_tree(*value),
{
    match value {
        Value::Null => Node::Null,
        Value::Bool(b) => Node::Bool(*b),
        Value::Number(n) => Node::Number(n.to_string()),
        Value::String(s) => Node::Text(s.clone()),
        Value::Sequence(items) => Node::List(items.iter().map(node_of).collect()),
        Value::Mapping(entries) => Node::Mapping(
            entries.iter().map(|(k, v)| Entry { key: node_of(k), value: node_of(v) }).collect(),
        ),
        Value::Tagged(t) => Node::Tagged(t.tag.to_string(), Box::new(node_of(&t.value))),
    }
}

/// Copies a tree into a `serde_yaml::Value`, variant by variant. Left out
/// are the trees with numbers and tags, for which
/// `serde_yaml::Number::from_str` may fail and `serde_yaml::value::Tag::new`
/// may panic, and those in which a mapping has a key that is no text or
/// has a key twice: `serde_yaml::Mapping` keeps one entry of those whose
/// keys it holds equal.
#[verifier::external_body]
pub(crate) fn value_of(node: &Node) -> (value: serde_yaml::Value)
    requires
        node@.is_writable(),
    ensures
        yaml_tree(value) == node@,
{
    match node {
        Node::Null => Value::Null,
        Node::Bool(b) => Value::Bool(*b),
        Node::Number(n) => Value::Number(n.parse().unwrap()),
        Node::Text(s) => Value::String(s.clone()),
        Node::List(items) => Value::Sequence(items.iter().map(value_of).collect()),
        Node::Mapping(entries) => Value::Mapping(
            entries.iter().map(|e| (value_of(&e.key), value_of(&e.value))).collect(),
        ),
        Node::Tagged(t, inner) => Value::Tagged(
            Box::new(TaggedValue { tag: Tag::new(t.clone()), value: value_of(inner) }),
        ),
    }
}

/// What YAML text stands for: the tree it parses to, its merge keys
/// resolved; or why there is none.
pub open spec fn document_of(text: Seq<char>) -> Result<NodeView, DocumentErrorView> {
    match parsed_yaml(text) {
        None => Err(DocumentErrorView::Syntax),
        Some(tree) => if tree.has_key(reserved_key()) {
            Err(DocumentErrorView::ReservedKey)
        } else {
            match merged_yaml(tree) {
                None => Err(DocumentErrorView::InvalidMergeValue),
                Some(document) => Ok(document),
            }
        },
    }
}

/// Reads YAML text and resolves its merge keys.
pub fn read_yaml(text: &str) -> (r: Result<Node, DocumentError>)
    ensures
        seen(r) == document_of(text@),
{
    match parse_yaml(text) {
        Ok(parsed) => {
            if node_of(&parsed).has_key("70235535-46bb-46f9-b535-31596b77733f") {
                return Err(DocumentError::ReservedKey);
            }
            match merge_yaml(parsed) {
                Ok(merged) => Ok(node_of(&merged)),
                Err(_) => Err(DocumentError::InvalidMergeValue),
            }
        },
        Err(error) => Err(DocumentError::Syntax(yaml_error_message(&error))),
    }
}

/// What a document is written as, or why it cannot be written.
pub open spec fn written(document: NodeView) -> Result<Seq<char>, DocumentErrorView> {
    match yaml_text(document) {
        Some(text) => Ok(text),
        None => Err(DocumentErrorView::Unwritable),
    }
}

/// Writes a document as YAML text.
pub(crate) fn write_document(document: &Node) -> (r: Result<String, DocumentError>)
    requires
        document@.is_writable(),
    ensures
        seen(r) == written(document@),
{
    match write_yaml(&value_of(document)) {
        Ok(text) => Ok(text),
        Err(_) => Err(DocumentError::Unwritable),
    }
}

} // verus!

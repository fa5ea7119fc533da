//! The document that describes the fields of a table: `basic`, an ordered
//! mapping from field names to attributes; `sensitization`, an optional
//! second mapping of the same shape; and `foreign_keys`, an optional list
//! of foreign keys.

use vstd::prelude::*;
use crate::document::codec::{pair, required_node, seen, DocumentError, DocumentErrorView};
use crate::document::fields::{attributes_node, attributes_of, lemma_attributes_round_trip};
use crate::document::objects::{foreign_keys_at, foreign_keys_node};
use crate::document::round_trip::lemma_foreign_keys_round_trip;
use crate::document::writable::{
    lemma_attributes_writable, lemma_foreign_keys_writable, lemma_mapping_writable,
};
use crate::document::yaml::{document_of, read_yaml, write_document, written};
use crate::document::read::{read_attributes, read_foreign_keys_at};
use crate::document::tree::{
    entry, entry_views, find_from, mapping_node, Entry, Node, NodeView,
};
use crate::document::write::{attributes_to_node, foreign_keys_to_node};
use crate::sql::constraint::{ForeignKeyView, ForeignKeys};
use crate::sql::field::{field_views, Field, FieldView, Fields};
use crate::sql::table::{
    find_repeated_names, names_unique, optional_foreign_key_views, repeated_names,
};

verus! {

/// The fields of a table as a document describes them.
#[derive(Debug)]
pub struct AsgFields {
    pub basic: Fields,
    pub sensitization: Option<Fields>,
    pub fks: Option<ForeignKeys>,
}

/// Mathematical model of [`AsgFields`].
pub struct AsgFieldsView {
    pub basic: Seq<FieldView>,
    pub sensitization: Option<Seq<FieldView>>,
    pub fks: Option<Seq<ForeignKeyView>>,
}

/// The view of an optional list of fields.
pub open spec fn optional_field_views(fields: Option<Fields>) -> Option<Seq<FieldView>> {
    match fields {
        Some(fs) => Some(field_views(fs@)),
        None => None,
    }
}

impl View for AsgFields {
    type V = AsgFieldsView;

    open spec fn view(&self) -> AsgFieldsView {
        AsgFieldsView {
            basic: field_views(self.basic@),
            sensitization: optional_field_views(self.sensitization),
            fks: optional_foreign_key_views(self.fks),
        }
    }
}

/// Among the first `n` fields, those that belong to no roster, in order.
pub open spec fn non_roster_first(fields: Seq<FieldView>, n: nat) -> Seq<FieldView>
    decreases n,
{
    if n == 0 {
        Seq::empty()
    } else {
        let earlier = non_roster_first(fields, (n - 1) as nat);
        if fields[n - 1].attributes.roster {
            earlier
        } else {
            earlier.push(fields[n - 1])
        }
    }
}

/// The fields that belong to no roster, in order.
pub open spec fn non_roster(fields: Seq<FieldView>) -> Seq<FieldView> {
    non_roster_first(fields, fields.len())
}

/// A copy of the fields that belong to no roster: the fields of the
/// non-roster variant of a table.
pub fn non_roster_fields(fields: &Fields) -> (kept: Fields)
    ensures
        field_views(kept@) == non_roster(field_views(fields@)),
{
    let ghost views = field_views(fields@);
    let mut kept: Vec<Field> = Vec::new();
    let mut i: usize = 0;
    assert(field_views(kept@) =~= Seq::empty());
    while i < fields.len()
        invariant
            i <= fields.len(),
            views == field_views(fields@),
            field_views(kept@) == non_roster_first(views, i as nat),
        decreases fields.len() - i,
    {
        if !fields[i].attributes.roster {
            let ghost before = field_views(kept@);
            kept.push(fields[i].clone());
            assert(field_views(kept@) =~= before.push(views[i as int]));
        }
        i = i + 1;
    }
    kept
}

/// The field that an entry describes: its key is the name, its value
/// describes the attributes.
pub open spec fn named_field_of(e: (NodeView, NodeView)) -> Result<FieldView, DocumentErrorView> {
    match e.0 {
        NodeView::Text(name) => match attributes_of(e.1) {
            Err(error) => Err(error),
            Ok(attributes) => Ok(FieldView { name, attributes }),
        },
        _ => Err(DocumentErrorView::KeyNotText),
    }
}

/// The fields that the first `n` entries describe, in order, or the error
/// of the first entry that describes none.
pub open spec fn named_fields_first(entries: Seq<(NodeView, NodeView)>, n: nat) -> Result<
    Seq<FieldView>,
    DocumentErrorView,
>
    decreases n,
{
    if n == 0 {
        Ok(Seq::empty())
    } else {
        match named_fields_first(entries, (n - 1) as nat) {
            Err(e) => Err(e),
            Ok(earlier) => match named_field_of(entries[n - 1]) {
                Err(e) => Err(e),
                Ok(field) => Ok(earlier.push(field)),
            },
        }
    }
}

/// The fields that a mapping from names to attributes describes, in the
/// order of its entries.
pub open spec fn named_fields_of(node: NodeView) -> Result<Seq<FieldView>, DocumentErrorView> {
    match node {
        NodeView::Mapping(entries) => named_fields_first(entries, entries.len()),
        _ => Err(DocumentErrorView::NotAMapping),
    }
}

/// The fields that mapping `m` may hold under `key`; a missing key and
/// null stand for none.
pub open spec fn named_fields_at(m: NodeView, key: Seq<char>) -> Result<
    Option<Seq<FieldView>>,
    DocumentErrorView,
> {
    match m.get(key) {
        None => Ok(None),
        Some(NodeView::Null) => Ok(None),
        Some(described) => match named_fields_of(described) {
            Err(e) => Err(e),
            Ok(fields) => Ok(Some(fields)),
        },
    }
}

/// What a document describes of the fields of a table.
pub open spec fn description_of(node: NodeView) -> Result<AsgFieldsView, DocumentErrorView> {
    if !(node is Mapping) {
        Err(DocumentErrorView::NotAMapping)
    } else {
        match required_node(node, "basic"@) {
            Err(e) => Err(e),
            Ok(described) => match named_fields_of(described) {
                Err(e) => Err(e),
                Ok(basic) => match named_fields_at(node, "sensitization"@) {
                    Err(e) => Err(e),
                    Ok(sensitization) => match foreign_keys_at(node, "foreign_keys"@) {
                        Err(e) => Err(e),
                        Ok(fks) => Ok(AsgFieldsView { basic, sensitization, fks }),
                    },
                },
            },
        }
    }
}

/// The mapping from names to attributes that describes some fields.
pub open spec fn named_fields_node(fields: Seq<FieldView>) -> NodeView {
    NodeView::Mapping(
        Seq::new(fields.len(), |i: int| pair(fields[i].name, attributes_node(fields[i].attributes))),
    )
}

/// The node of an optional mapping from names to attributes.
pub open spec fn optional_named_fields_node(fields: Option<Seq<FieldView>>) -> NodeView {
    match fields {
        Some(fs) => named_fields_node(fs),
        None => NodeView::Null,
    }
}

/// The document that describes the fields of a table.
pub open spec fn description_node(d: AsgFieldsView) -> NodeView {
    NodeView::Mapping(
        seq![
            pair("basic"@, named_fields_node(d.basic)),
            pair("sensitization"@, optional_named_fields_node(d.sensitization)),
            pair("foreign_keys"@, foreign_keys_node(d.fks)),
        ],
    )
}

/// Fields are read back from the mapping that describes them.
pub proof fn lemma_named_fields_round_trip(fields: Seq<FieldView>, n: nat)
    requires
        n <= fields.len(),
    ensures
        named_fields_first(named_fields_node(fields)->Mapping_0, n) == Ok::<
            Seq<FieldView>,
            DocumentErrorView,
        >(fields.take(n as int)),
    decreases n,
{
    if n == 0 {
        assert(fields.take(0) =~= Seq::<FieldView>::empty());
    } else {
        lemma_named_fields_round_trip(fields, (n - 1) as nat);
        lemma_attributes_round_trip(fields[n - 1].attributes);
        assert(fields.take(n - 1).push(fields[n - 1]) =~= fields.take(n as int));
    }
}

/// What a document describes is read back from it.
pub proof fn lemma_description_round_trip(d: AsgFieldsView)
    ensures
        description_of(description_node(d)) == Ok::<AsgFieldsView, DocumentErrorView>(d),
{
    reveal_strlit("basic");
    reveal_strlit("sensitization");
    reveal_strlit("foreign_keys");
    assert("basic"@.len() == 5);
    assert("sensitization"@.len() == 13);
    assert("foreign_keys"@.len() == 12);
    reveal_with_fuel(find_from, 4);
    let node = description_node(d);
    assert(node.get("basic"@) == Some(named_fields_node(d.basic)));
    assert(node.get("sensitization"@) == Some(optional_named_fields_node(d.sensitization)));
    assert(node.get("foreign_keys"@) == Some(foreign_keys_node(d.fks)));
    lemma_named_fields_round_trip(d.basic, d.basic.len());
    assert(d.basic.take(d.basic.len() as int) =~= d.basic);
    if let Some(fs) = d.sensitization {
        lemma_named_fields_round_trip(fs, fs.len());
        assert(fs.take(fs.len() as int) =~= fs);
    }
    lemma_foreign_keys_round_trip(node, "foreign_keys"@, d.fks);
}

/// Reads the fields that a mapping from names to attributes describes.
pub fn read_named_fields(node: &Node) -> (r: Result<Fields, DocumentError>)
    ensures
        match r {
            Ok(fields) => named_fields_of(node@) == Ok::<Seq<FieldView>, DocumentErrorView>(
                field_views(fields@),
            ),
            Err(e) => named_fields_of(node@) == Err::<Seq<FieldView>, DocumentErrorView>(e@),
        },
{
    match node.entries() {
        None => Err(DocumentError::NotAMapping),
        Some(entries) => {
            let ghost views = entry_views(entries@);
            let mut fields: Vec<Field> = Vec::new();
            let mut i: usize = 0;
            assert(field_views(fields@) =~= Seq::empty());
            while i < entries.len()
                invariant
                    i <= entries.len(),
                    views == entry_views(entries@),
                    node@ == NodeView::Mapping(views),
                    named_fields_first(views, i as nat) == Ok::<Seq<FieldView>, DocumentErrorView>(
                        field_views(fields@),
                    ),
                decreases entries.len() - i,
            {
                let ghost before = field_views(fields@);
                let name = match &entries[i].key {
                    Node::Text(name) => name.clone(),
                    _ => {
                        proof {
                            lemma_named_fields_fail(views, i as nat, views.len());
                        }
                        return Err(DocumentError::KeyNotText);
                    },
                };
                match read_attributes(&entries[i].value) {
                    Ok(attributes) => {
                        let field = Field { name, attributes };
                        fields.push(field);
                        assert(field_views(fields@) =~= before.push(field@));
                    },
                    Err(e) => {
                        proof {
                            lemma_named_fields_fail(views, i as nat, views.len());
                        }
                        return Err(e);
                    },
                }
                i = i + 1;
            }
            Ok(fields)
        },
    }
}

/// Once an entry describes no field, the error stays whatever follows.
proof fn lemma_named_fields_fail(entries: Seq<(NodeView, NodeView)>, i: nat, n: nat)
    requires
        i < n <= entries.len(),
        named_fields_first(entries, i) is Ok,
        named_field_of(entries[i as int]) is Err,
    ensures
        named_fields_first(entries, n) == Err::<Seq<FieldView>, DocumentErrorView>(
            named_field_of(entries[i as int])->Err_0,
        ),
    decreases n,
{
    if n > i + 1 {
        lemma_named_fields_fail(entries, i, (n - 1) as nat);
    }
}

/// Writes the mapping from names to attributes that describes some fields.
pub fn named_fields_to_node(fields: &Fields) -> (node: Node)
    ensures
        node@ == named_fields_node(field_views(fields@)),
{
    let mut entries: Vec<Entry> = Vec::new();
    let mut i: usize = 0;
    while i < fields.len()
        invariant
            i <= fields.len(),
            entries@.len() == i,
            forall|j: int|
                0 <= j < i ==> (#[trigger] entries@[j]).key@ == NodeView::Text(fields@[j].name@)
                    && entries@[j].value@ == attributes_node(fields@[j].attributes@),
        decreases fields.len() - i,
    {
        entries.push(entry(fields[i].name.as_str(), attributes_to_node(&fields[i].attributes)));
        i = i + 1;
    }
    assert(entry_views(entries@) =~= named_fields_node(field_views(fields@))->Mapping_0);
    mapping_node(entries)
}

/// The mapping that describes fields with names that differ can be
/// written.
pub proof fn lemma_named_fields_writable(fields: Seq<FieldView>)
    requires
        names_unique(fields),
    ensures
        named_fields_node(fields).is_writable(),
{
    let entries = named_fields_node(fields)->Mapping_0;
    assert forall|i: int| 0 <= i < entries.len() implies (#[trigger] entries[i]).0 is Text
        && entries[i].1.is_writable() by {
        lemma_attributes_writable(fields[i].attributes);
    }
    assert forall|i: int, j: int| 0 <= i < j < entries.len() implies (#[trigger] entries[i]).0 != (
    #[trigger] entries[j]).0 by {
        assert(fields[i].name != fields[j].name);
    }
    lemma_mapping_writable(entries);
}

/// Whether the names of the fields differ within `basic` and within
/// `sensitization`.
pub open spec fn names_differ(d: AsgFieldsView) -> bool {
    names_unique(d.basic) && (d.sensitization matches Some(fields) ==> names_unique(fields))
}

/// The document that describes fields with names that differ can be
/// written.
pub proof fn lemma_description_writable(d: AsgFieldsView)
    requires
        names_differ(d),
    ensures
        description_node(d).is_writable(),
{
    reveal_strlit("basic");
    reveal_strlit("sensitization");
    reveal_strlit("foreign_keys");
    assert("basic"@.len() == 5);
    assert("sensitization"@.len() == 13);
    assert("foreign_keys"@.len() == 12);
    reveal_with_fuel(NodeView::is_writable, 2);
    lemma_named_fields_writable(d.basic);
    if let Some(fs) = d.sensitization {
        lemma_named_fields_writable(fs);
    }
    lemma_foreign_keys_writable(d.fks);
    lemma_mapping_writable(description_node(d)->Mapping_0);
}

/// What is written for a description: the text of its document. Field
/// names are the keys of a mapping there, so they must differ: where they
/// do not, nothing is written, those of `basic` being looked at first.
pub open spec fn written_description(d: AsgFieldsView) -> Result<Seq<char>, DocumentErrorView> {
    if !names_unique(d.basic) {
        Err(DocumentErrorView::RepeatedNames(repeated_names(d.basic)))
    } else if d.sensitization is Some && !names_unique(d.sensitization->0) {
        Err(DocumentErrorView::RepeatedNames(repeated_names(d.sensitization->0)))
    } else {
        written(description_node(d))
    }
}

/// What YAML text describes of the fields of a table.
pub open spec fn described(text: Seq<char>) -> Result<AsgFieldsView, DocumentErrorView> {
    match document_of(text) {
        Err(e) => Err(e),
        Ok(document) => description_of(document),
    }
}

impl AsgFields {
    /// Reads from YAML text what it describes of the fields of a table.
    pub fn from_yaml(text: &str) -> (r: Result<AsgFields, DocumentError>)
        ensures
            seen(r) == described(text@),
    {
        let document = read_yaml(text)?;
        AsgFields::from_node(&document)
    }

    /// Writes the YAML text that describes these fields.
    pub fn to_yaml(&self) -> (r: Result<String, DocumentError>)
        ensures
            seen(r) == written_description(self@),
    {
        let repeated = find_repeated_names(&self.basic);
        if repeated.len() > 0 {
            return Err(DocumentError::RepeatedNames(repeated));
        }
        match &self.sensitization {
            Some(fields) => {
                let repeated = find_repeated_names(fields);
                if repeated.len() > 0 {
                    return Err(DocumentError::RepeatedNames(repeated));
                }
            },
            None => {},
        }
        let document = self.to_node();
        proof {
            lemma_description_writable(self@);
        }
        write_document(&document)
    }

    /// Reads what a document describes of the fields of a table.
    pub fn from_node(node: &Node) -> (r: Result<AsgFields, DocumentError>)
        ensures
            seen(r) == description_of(node@),
    {
        match node {
            Node::Mapping(_) => {},
            _ => {
                return Err(DocumentError::NotAMapping);
            },
        }
        let basic = match node.get("basic") {
            None => {
                return Err(DocumentError::MissingKey("basic".to_owned()));
            },
            Some(described) => read_named_fields(described)?,
        };
        let sensitization = match node.get("sensitization") {
            None => None,
            Some(Node::Null) => None,
            Some(described) => Some(read_named_fields(described)?),
        };
        let fks = read_foreign_keys_at(node, "foreign_keys")?;
        Ok(AsgFields { basic, sensitization, fks })
    }

    /// Writes the document that describes these fields.
    pub fn to_node(&self) -> (node: Node)
        ensures
            node@ == description_node(self@),
    {
        let mut entries: Vec<Entry> = Vec::new();
        entries.push(entry("basic", named_fields_to_node(&self.basic)));
        let sensitization = match &self.sensitization {
            Some(fields) => named_fields_to_node(fields),
            None => Node::Null,
        };
        entries.push(entry("sensitization", sensitization));
        entries.push(entry("foreign_keys", foreign_keys_to_node(&self.fks)));
        assert(entry_views(entries@) =~= description_node(self@)->Mapping_0);
        mapping_node(entries)
    }
}

} // verus!

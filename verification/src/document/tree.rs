//! The document tree: scalars, lists and mappings.

use vstd::prelude::*;

verus! {

/// One entry of a mapping.
#[derive(Debug)]
pub struct Entry {
    pub key: Node,
    pub value: Node,
}

/// A document or a part of one.
#[derive(Debug)]
pub enum Node {
    Null,
    Bool(bool),
    /// A number, as it is written.
    Number(String),
    Text(String),
    List(Vec<Node>),
    /// Entries in the order of the document.
    Mapping(Vec<Entry>),
    /// A part that carries a tag.
    Tagged(String, Box<Node>),
}

/// Mathematical model of a [`Node`].
pub enum NodeView {
    Null,
    Bool(bool),
    Number(Seq<char>),
    Text(Seq<char>),
    List(Seq<NodeView>),
    Mapping(Seq<(NodeView, NodeView)>),
    Tagged(Seq<char>, Box<NodeView>),
}

/// The model of a node: its scalars as sequences of characters, its lists
/// and mappings as sequences of models.
pub open spec fn node_view(node: Node) -> NodeView
    decreases node,
{
    match node {
        Node::Null => NodeView::Null,
        Node::Bool(b) => NodeView::Bool(b),
        Node::Number(s) => NodeView::Number(s@),
        Node::Text(s) => NodeView::Text(s@),
        Node::List(items) => NodeView::List(
            Seq::new(
                items@.len(),
                |i: int|
                    if 0 <= i < items@.len() {
                        node_view(items@[i])
                    } else {
                        NodeView::Null
                    },
            ),
        ),
        Node::Mapping(entries) => NodeView::Mapping(
            Seq::new(
                entries@.len(),
                |i: int|
                    if 0 <= i < entries@.len() {
                        (node_view(entries@[i].key), node_view(entries@[i].value))
                    } else {
                        (NodeView::Null, NodeView::Null)
                    },
            ),
        ),
        Node::Tagged(tag, inner) => NodeView::Tagged(tag@, Box::new(node_view(*inner))),
    }
}

impl View for Node {
    type V = NodeView;

    open spec fn view(&self) -> NodeView {
        node_view(*self)
    }
}

impl NodeView {
    /// What can be written as it stands: neither the node nor any part of
    /// it is a number or carries a tag, and every mapping in it has texts
    /// for keys and none of them twice.
    pub open spec fn is_writable(self) -> bool
        decreases self,
    {
        match self {
            NodeView::Null => true,
            NodeView::Bool(_) => true,
            NodeView::Number(_) => false,
            NodeView::Text(_) => true,
            NodeView::List(items) => forall|i: int|
                0 <= i < items.len() ==> (#[trigger] items[i]).is_writable(),
            NodeView::Mapping(entries) => {
                &&& forall|i: int|
                    0 <= i < entries.len() ==> (#[trigger] entries[i]).0 is Text
                        && entries[i].1.is_writable()
                &&& forall|i: int, j: int|
                    0 <= i < j < entries.len() ==> (#[trigger] entries[i]).0 != (
                    #[trigger] entries[j]).0
            },
            NodeView::Tagged(_, _) => false,
        }
    }

    /// Some mapping in the node, at any depth, has the text `key` as a key.
    pub open spec fn has_key(self, key: Seq<char>) -> bool
        decreases self,
    {
        match self {
            NodeView::List(items) => exists|i: int|
                0 <= i < items.len() && (#[trigger] items[i]).has_key(key),
            NodeView::Mapping(entries) => exists|i: int|
                0 <= i < entries.len() && ((#[trigger] entries[i]).0 == NodeView::Text(key)
                    || entries[i].0.has_key(key) || entries[i].1.has_key(key)),
            NodeView::Tagged(_, inner) => inner.has_key(key),
            _ => false,
        }
    }
}

/// The views of a list of nodes, element by element.
pub open spec fn node_views(items: Seq<Node>) -> Seq<NodeView> {
    Seq::new(items.len(), |i: int| items[i]@)
}

/// The views of a list of entries, element by element.
pub open spec fn entry_views(entries: Seq<Entry>) -> Seq<(NodeView, NodeView)> {
    Seq::new(entries.len(), |i: int| (entries[i].key@, entries[i].value@))
}

/// The value of the first entry, from position `from` on, whose key is the
/// text `key`.
pub open spec fn find_from(entries: Seq<(NodeView, NodeView)>, key: Seq<char>, from: int) -> Option<
    NodeView,
>
    decreases entries.len() - from,
{
    if from < 0 || from >= entries.len() {
        None
    } else if entries[from].0 == NodeView::Text(key) {
        Some(entries[from].1)
    } else {
        find_from(entries, key, from + 1)
    }
}

impl NodeView {
    /// What a mapping holds under the text `key`: the value of the first
    /// such entry. `None` where there is none or the node is no mapping.
    pub open spec fn get(self, key: Seq<char>) -> Option<NodeView> {
        match self {
            NodeView::Mapping(entries) => find_from(entries, key, 0),
            _ => None,
        }
    }
}

/// The view of a mapping holds the views of its entries.
pub proof fn lemma_mapping_view(node: Node)
    requires
        node is Mapping,
    ensures
        node@ == NodeView::Mapping(entry_views(node->Mapping_0@)),
{
    let entries = node->Mapping_0;
    let views = node@->Mapping_0;
    assert(node@ is Mapping);
    reveal_with_fuel(node_view, 2);
    assert(views.len() == entries@.len());
    assert forall|i: int| 0 <= i < views.len() implies views[i] == entry_views(entries@)[i] by {
        assert(views[i].0 == entries@[i].key@);
        assert(views[i].1 == entries@[i].value@);
    }
    assert(views =~= entry_views(entries@));
}

/// The text node of `text`.
pub fn text_node(text: &str) -> (node: Node)
    ensures
        node@ == NodeView::Text(text@),
{
    Node::Text(text.to_owned())
}

/// The entry of `value` under the text `key`.
pub fn entry(key: &str, value: Node) -> (e: Entry)
    ensures
        e.key@ == NodeView::Text(key@),
        e.value@ == value@,
{
    Entry { key: Node::Text(key.to_owned()), value }
}

/// The list of `items`.
pub fn list_node(items: Vec<Node>) -> (node: Node)
    ensures
        node@ == NodeView::List(node_views(items@)),
{
    let node = Node::List(items);
    assert(node@ is List);
    assert(node@->List_0 =~= node_views(items@));
    node
}

/// The mapping of `entries`.
pub fn mapping_node(entries: Vec<Entry>) -> (node: Node)
    ensures
        node@ == NodeView::Mapping(entry_views(entries@)),
{
    let node = Node::Mapping(entries);
    proof {
        lemma_mapping_view(node);
    }
    node
}

impl Node {
    /// Whether some mapping in the node, at any depth, has the text `key`
    /// as a key.
    pub fn has_key(&self, key: &str) -> (b: bool)
        ensures
            b == self@.has_key(key@),
        decreases self,
    {
        match self {
            Node::List(items) => {
                let ghost views = self@->List_0;
                let mut i: usize = 0;
                while i < items.len()
                    invariant
                        i <= items.len(),
                        self == Node::List(*items),
                        views == self@->List_0,
                        views.len() == items@.len(),
                        forall|j: int| 0 <= j < items@.len() ==> views[j] == items@[j]@,
                        forall|j: int| 0 <= j < i ==> !(#[trigger] views[j]).has_key(key@),
                    decreases items.len() - i,
                {
                    if items[i].has_key(key) {
                        assert(views[i as int].has_key(key@));
                        return true;
                    }
                    i = i + 1;
                }
                false
            },
            Node::Mapping(entries) => {
                proof {
                    lemma_mapping_view(*self);
                }
                let ghost views = entry_views(entries@);
                let wanted = key.to_owned();
                let mut i: usize = 0;
                while i < entries.len()
                    invariant
                        i <= entries.len(),
                        self == Node::Mapping(*entries),
                        views == entry_views(entries@),
                        self@ == NodeView::Mapping(views),
                        wanted@ == key@,
                        forall|j: int|
                            0 <= j < i ==> (#[trigger] views[j]).0 != NodeView::Text(key@)
                                && !views[j].0.has_key(key@) && !views[j].1.has_key(key@),
                    decreases entries.len() - i,
                {
                    let named = match &entries[i].key {
                        Node::Text(name) => *name == wanted,
                        _ => false,
                    };
                    if named || entries[i].key.has_key(key) || entries[i].value.has_key(key) {
                        assert(views[i as int].0 == NodeView::Text(key@) || views[i as int].0.has_key(
                            key@,
                        ) || views[i as int].1.has_key(key@));
                        return true;
                    }
                    i = i + 1;
                }
                false
            },
            Node::Tagged(_, inner) => inner.has_key(key),
            _ => false,
        }
    }

    /// The items of a list.
    pub fn items(&self) -> (r: Option<&Vec<Node>>)
        ensures
            match self@ {
                NodeView::List(views) => r matches Some(items) && node_views(items@) == views,
                _ => r is None,
            },
    {
        match self {
            Node::List(items) => {
                assert(self@->List_0 =~= node_views(items@));
                Some(items)
            },
            _ => None,
        }
    }

    /// The entries of a mapping.
    pub fn entries(&self) -> (r: Option<&Vec<Entry>>)
        ensures
            match self@ {
                NodeView::Mapping(views) => r matches Some(entries) && entry_views(entries@)
                    == views,
                _ => r is None,
            },
    {
        match self {
            Node::Mapping(entries) => {
                proof {
                    lemma_mapping_view(*self);
                }
                Some(entries)
            },
            _ => None,
        }
    }

    /// What a mapping holds under the text `key`.
    pub fn get(&self, key: &str) -> (r: Option<&Node>)
        ensures
            match self@.get(key@) {
                Some(view) => r matches Some(node) && node@ == view,
                None => r is None,
            },
    {
        match self.entries() {
            Some(entries) => {
                let ghost views = entry_views(entries@);
                let wanted = key.to_owned();
                let mut i: usize = 0;
                while i < entries.len()
                    invariant
                        i <= entries.len(),
                        views == entry_views(entries@),
                        self@ == NodeView::Mapping(views),
                        wanted@ == key@,
                        find_from(views, key@, 0) == find_from(views, key@, i as int),
                    decreases entries.len() - i,
                {
                    match &entries[i].key {
                        Node::Text(name) => {
                            if *name == wanted {
                                assert(views[i as int].0 == NodeView::Text(key@));
                                assert(find_from(views, key@, i as int) == Some(views[i as int].1));
                                return Some(&entries[i].value);
                            }
                            assert(views[i as int].0 != NodeView::Text(key@));
                        },
                        _ => {
                            assert(views[i as int].0 != NodeView::Text(key@));
                        },
                    }
                    i = i + 1;
                }
                None
            },
            None => None,
        }
    }
}

} // verus!

//! The configuration document: a KDL document read through the `kdl` crate
//! into nodes of plain values, each with its name, its entries and the nodes
//! of its children block.

use vstd::prelude::*;
use vstd::string::*;
use crate::text::str_eq;

verus! {

#[verifier::external_type_specification]
#[verifier::external_body]
pub struct ExKdlDocument(kdl::KdlDocument);

/// The value of one entry of a node: a string, an integer, a boolean, null,
/// or a floating-point number, whose value the configuration never reads.
pub enum KdlValueData {
    Str(String),
    Integer(i128),
    Bool(bool),
    Null,
    Float,
}

/// One entry of a node: an argument (no name) or a property (`name=value`).
pub struct KdlEntryData {
    pub name: Option<String>,
    pub value: KdlValueData,
}

/// One node of a KDL document: its name, its entries, and the nodes of its
/// children block, if it has one.
pub struct KdlNodeData {
    pub name: String,
    pub entries: Vec<KdlEntryData>,
    pub children: Option<Vec<KdlNodeData>>,
}

pub ghost enum ValueView {
    Str(Seq<char>),
    Integer(i128),
    Bool(bool),
    Null,
    Float,
}

pub ghost struct EntryView {
    pub name: Option<Seq<char>>,
    pub value: ValueView,
}

/// A node of a KDL document: its name, its entries, and the nodes of its
/// children block, if it has one.
pub ghost struct NodeView {
    pub name: Seq<char>,
    pub entries: Seq<EntryView>,
    pub children: Option<Seq<NodeView>>,
}

pub open spec fn opt_view(o: Option<String>) -> Option<Seq<char>> {
    match o {
        Some(s) => Some(s@),
        None => None,
    }
}

impl View for KdlValueData {
    type V = ValueView;

    open spec fn view(&self) -> ValueView {
        match self {
            KdlValueData::Str(s) => ValueView::Str(s@),
            KdlValueData::Integer(i) => ValueView::Integer(*i),
            KdlValueData::Bool(b) => ValueView::Bool(*b),
            KdlValueData::Null => ValueView::Null,
            KdlValueData::Float => ValueView::Float,
        }
    }
}

impl View for KdlEntryData {
    type V = EntryView;

    open spec fn view(&self) -> EntryView {
        EntryView { name: opt_view(self.name), value: self.value@ }
    }
}

/// A node taken by its name, its entries and, recursively, its children.
pub open spec fn node_view(n: KdlNodeData) -> NodeView
    decreases n, 1int,
{
    NodeView {
        name: n.name@,
        entries: n.entries@.map_values(|e: KdlEntryData| e@),
        children: match n.children {
            Some(v) => Some(node_seq_view(v@)),
            None => None,
        },
    }
}

/// The views of a sequence of nodes, one by one.
pub open spec fn node_seq_view(s: Seq<KdlNodeData>) -> Seq<NodeView>
    decreases s, 0int,
{
    if s.len() == 0 {
        Seq::empty()
    } else {
        seq![node_view(s[0])] + node_seq_view(s.subrange(1, s.len() as int))
    }
}

impl View for KdlNodeData {
    type V = NodeView;

    open spec fn view(&self) -> NodeView {
        node_view(*self)
    }
}

pub open spec fn nodes_view(v: Seq<KdlNodeData>) -> Seq<NodeView> {
    v.map_values(|n: KdlNodeData| n@)
}

/// Taking the nodes' views one by one is taking the view of each.
pub proof fn lemma_node_seq_view(s: Seq<KdlNodeData>)
    ensures
        node_seq_view(s) == nodes_view(s),
    decreases s.len(),
{
    if s.len() > 0 {
        lemma_node_seq_view(s.subrange(1, s.len() as int));
    }
    assert(node_seq_view(s) =~= nodes_view(s));
}

/// The nodes of a KDL document, in order, each taken by its name, entries
/// and the nodes of its children block.
pub uninterp spec fn kdl_document_nodes(doc: kdl::KdlDocument) -> Seq<NodeView>;

/// What `kdl` parses a text into: `None` where it refuses the text, else the
/// top-level nodes of the document.
pub uninterp spec fn kdl_parse(text: Seq<char>) -> Option<Seq<NodeView>>;

/// The text of the error that `kdl` reports for a document it refuses.
pub open spec fn kdl_error_text() -> Seq<char> {
    "Failed to parse KDL document"@
}

/// Parses `text` with `kdl::KdlDocument`'s `FromStr` (`KdlDocument::parse`,
/// which reads KDL v2 and, failing that, KDL v1). Whether it succeeds and
/// the nodes it gives are named by `kdl_parse`, which depends on the text
/// alone; on failure the `Display` text of `kdl::KdlError` is returned,
/// which the crate writes as the fixed sentence of `kdl_error_text`.
#[verifier::external_body]
pub(crate) fn parse_kdl(text: &str) -> (res: Result<kdl::KdlDocument, String>)
    ensures
        res is Ok <==> kdl_parse(text@) is Some,
        res matches Ok(d) ==> kdl_parse(text@) == Some(kdl_document_nodes(d)),
        res matches Err(e) ==> e@ == kdl_error_text(),
{
    text.parse::<kdl::KdlDocument>().map_err(|e| e.to_string())
}

/// Calls `kdl::KdlDocument::nodes` and, for each node, `KdlNode::name`,
/// `KdlNode::entries` (with `KdlEntry::name` and `KdlEntry::value`) and
/// `KdlNode::children` (whose nodes it reads the same way), converting each
/// to plain values; the result is the document's node sequence that
/// `kdl_document_nodes` names.
#[verifier::external_body]
pub(crate) fn document_nodes(doc: &kdl::KdlDocument) -> (res: Vec<KdlNodeData>)
    ensures
        nodes_view(res@) == kdl_document_nodes(*doc),
{
    doc.nodes().iter().map(|n| KdlNodeData {
        name: n.name().value().to_string(),
        entries: n.entries().iter().map(|e| KdlEntryData {
            name: e.name().map(|i| i.value().to_string()),
            value: match e.value() {
                kdl::KdlValue::String(s) => KdlValueData::Str(s.clone()),
                kdl::KdlValue::Integer(i) => KdlValueData::Integer(*i),
                kdl::KdlValue::Float(_) => KdlValueData::Float,
                kdl::KdlValue::Bool(b) => KdlValueData::Bool(*b),
                kdl::KdlValue::Null => KdlValueData::Null,
            },
        }).collect(),
        children: n.children().map(document_nodes),
    }).collect()
}

/// The `i`-th entry of a node, if it exists and holds a string.
pub open spec fn str_arg(n: NodeView, i: int) -> Option<Seq<char>> {
    if 0 <= i < n.entries.len() {
        match n.entries[i].value {
            ValueView::Str(s) => Some(s),
            _ => None,
        }
    } else {
        None
    }
}

/// The value of the first entry named `key`.
pub open spec fn find_prop(es: Seq<EntryView>, key: Seq<char>) -> Option<ValueView>
    decreases es.len(),
{
    if es.len() == 0 {
        None
    } else if es[0].name == Some(key) {
        Some(es[0].value)
    } else {
        find_prop(es.drop_first(), key)
    }
}

pub open spec fn prop_bool(n: NodeView, key: Seq<char>) -> Option<bool> {
    match find_prop(n.entries, key) {
        Some(ValueView::Bool(b)) => Some(b),
        _ => None,
    }
}

pub open spec fn prop_str(n: NodeView, key: Seq<char>) -> Option<Seq<char>> {
    match find_prop(n.entries, key) {
        Some(ValueView::Str(s)) => Some(s),
        _ => None,
    }
}

/// The string values of all entries of a node, in order.
pub open spec fn str_values(es: Seq<EntryView>) -> Seq<Seq<char>>
    decreases es.len(),
{
    if es.len() == 0 {
        Seq::empty()
    } else {
        match es[0].value {
            ValueView::Str(s) => seq![s] + str_values(es.drop_first()),
            _ => str_values(es.drop_first()),
        }
    }
}

/// Whether a node is `feature "<name>"`.
pub open spec fn is_feature_node(n: NodeView, name: Seq<char>) -> bool {
    n.name == "feature"@ && str_arg(n, 0) == Some(name)
}

/// The index of the first `feature "<name>"` node at or after `i`.
pub open spec fn find_feature_from(nodes: Seq<NodeView>, name: Seq<char>, i: int) -> Option<int>
    decreases nodes.len() - i,
{
    if i < 0 || i >= nodes.len() {
        None
    } else if is_feature_node(nodes[i], name) {
        Some(i)
    } else {
        find_feature_from(nodes, name, i + 1)
    }
}

/// The index of the first `feature "<name>"` node.
pub open spec fn find_feature(nodes: Seq<NodeView>, name: Seq<char>) -> Option<int> {
    find_feature_from(nodes, name, 0)
}

/// A feature is enabled when its first `feature` node has an `enabled`
/// property holding `true`.
pub open spec fn feature_enabled(nodes: Seq<NodeView>, name: Seq<char>) -> bool {
    match find_feature(nodes, name) {
        Some(i) => prop_bool(nodes[i], "enabled"@) == Some(true),
        None => false,
    }
}

/// The `i`-th entry of `n`, if it holds a string.
pub fn node_str_arg(n: &KdlNodeData, i: usize) -> (r: Option<String>)
    ensures
        opt_view(r) == str_arg(n@, i as int),
{
    if i < n.entries.len() {
        match &n.entries[i].value {
            KdlValueData::Str(s) => Some(s.clone()),
            _ => None,
        }
    } else {
        None
    }
}

/// The value of the first entry of `n` named `key`.
pub fn node_prop<'a>(n: &'a KdlNodeData, key: &str) -> (r: Option<&'a KdlValueData>)
    ensures
        match r {
            Some(v) => find_prop(n@.entries, key@) == Some(v@),
            None => find_prop(n@.entries, key@) is None,
        },
{
    let ghost es = n@.entries;
    let mut i: usize = 0;
    assert(es.subrange(0, es.len() as int) =~= es);
    while i < n.entries.len()
        invariant
            es == n@.entries,
            es.len() == n.entries@.len(),
            i <= es.len(),
            find_prop(es, key@) == find_prop(es.subrange(i as int, es.len() as int), key@),
        decreases es.len() - i,
    {
        let e = &n.entries[i];
        assert(es[i as int] == e@);
        let hit = match &e.name {
            Some(nm) => str_eq(nm.as_str(), key),
            None => false,
        };
        if hit {
            return Some(&e.value);
        }
        assert(es.subrange(i as int, es.len() as int).drop_first() =~= es.subrange(
            i + 1,
            es.len() as int,
        ));
        i = i + 1;
    }
    None
}

/// The boolean held by the first entry of `n` named `key`.
pub fn node_prop_bool(n: &KdlNodeData, key: &str) -> (r: Option<bool>)
    ensures
        r == prop_bool(n@, key@),
{
    match node_prop(n, key) {
        Some(KdlValueData::Bool(b)) => Some(*b),
        _ => None,
    }
}

/// The string held by the first entry of `n` named `key`.
pub fn node_prop_str(n: &KdlNodeData, key: &str) -> (r: Option<String>)
    ensures
        opt_view(r) == prop_str(n@, key@),
{
    match node_prop(n, key) {
        Some(KdlValueData::Str(s)) => Some(s.clone()),
        _ => None,
    }
}

/// The index of the first `feature "<name>"` node of `nodes`.
pub fn find_feature_index(nodes: &Vec<KdlNodeData>, name: &str) -> (r: Option<usize>)
    ensures
        match r {
            Some(i) => find_feature(nodes_view(nodes@), name@) == Some(i as int) && i
                < nodes@.len(),
            None => find_feature(nodes_view(nodes@), name@) is None,
        },
{
    let ghost v = nodes_view(nodes@);
    let mut i: usize = 0;
    while i < nodes.len()
        invariant
            v == nodes_view(nodes@),
            v.len() == nodes@.len(),
            i <= v.len(),
            find_feature(v, name@) == find_feature_from(v, name@, i as int),
        decreases v.len() - i,
    {
        let n = &nodes[i];
        assert(v[i as int] == n@);
        if str_eq(n.name.as_str(), "feature") {
            let a = node_str_arg(n, 0);
            let hit = match &a {
                Some(s) => str_eq(s.as_str(), name),
                None => false,
            };
            if hit {
                return Some(i);
            }
        }
        i = i + 1;
    }
    None
}

/// Whether the feature `name` is enabled among the top-level `nodes`.
pub fn feature_enabled_in(nodes: &Vec<KdlNodeData>, name: &str) -> (r: bool)
    ensures
        r == feature_enabled(nodes_view(nodes@), name@),
{
    match find_feature_index(nodes, name) {
        Some(i) => {
            proof {
                assert(nodes_view(nodes@)[i as int] == nodes@[i as int]@);
            }
            match node_prop_bool(&nodes[i], "enabled") {
                Some(b) => b,
                None => false,
            }
        },
        None => false,
    }
}

/// Whether the feature `feature_name` is enabled in the document: its first
/// `feature "<feature_name>"` node has the property `enabled=true`.
pub fn is_feature_enabled(doc: &kdl::KdlDocument, feature_name: &str) -> (r: bool)
    ensures
        r == feature_enabled(kdl_document_nodes(*doc), feature_name@),
{
    let nodes = document_nodes(doc);
    feature_enabled_in(&nodes, feature_name)
}

/// The nodes under a node: those of its children document, or none.
pub open spec fn child_nodes(n: NodeView) -> Seq<NodeView> {
    match n.children {
        Some(cs) => cs,
        None => Seq::empty(),
    }
}

/// A copy of an entry.
fn copy_entry(e: &KdlEntryData) -> (r: KdlEntryData)
    ensures
        r@ == e@,
{
    let name = match &e.name {
        Some(s) => Some(s.clone()),
        None => None,
    };
    let value = match &e.value {
        KdlValueData::Str(s) => KdlValueData::Str(s.clone()),
        KdlValueData::Integer(i) => KdlValueData::Integer(*i),
        KdlValueData::Bool(b) => KdlValueData::Bool(*b),
        KdlValueData::Null => KdlValueData::Null,
        KdlValueData::Float => KdlValueData::Float,
    };
    KdlEntryData { name, value }
}

/// A copy of a node, children included.
fn copy_node(n: &KdlNodeData) -> (r: KdlNodeData)
    ensures
        r@ == n@,
    decreases *n, 1int,
{
    let mut entries: Vec<KdlEntryData> = Vec::new();
    let mut i: usize = 0;
    while i < n.entries.len()
        invariant
            i <= n.entries@.len(),
            entries@.len() == i,
            forall|j: int| 0 <= j < i ==> #[trigger] entries@[j]@ == n.entries@[j]@,
        decreases n.entries@.len() - i,
    {
        entries.push(copy_entry(&n.entries[i]));
        i = i + 1;
    }
    let children = match &n.children {
        Some(_) => Some(node_children(n)),
        None => None,
    };
    let r = KdlNodeData { name: n.name.clone(), entries, children };
    proof {
        assert(r@.entries =~= n@.entries);
        if n.children is Some {
            let v = n.children->0;
            let kids = r.children->0;
            lemma_node_seq_view(kids@);
            lemma_node_seq_view(v@);
            assert(r@.children == n@.children);
        }
    }
    r
}

/// The nodes under `n`.
pub fn node_children(n: &KdlNodeData) -> (r: Vec<KdlNodeData>)
    ensures
        nodes_view(r@) == child_nodes(n@),
    decreases *n, 0int,
{
    let mut r: Vec<KdlNodeData> = Vec::new();
    match &n.children {
        Some(v) => {
            proof {
                lemma_node_seq_view(v@);
            }
            let mut i: usize = 0;
            while i < v.len()
                invariant
                    n.children == Some(*v),
                    child_nodes(n@) == nodes_view(v@),
                    i <= v@.len(),
                    r@.len() == i,
                    forall|j: int| 0 <= j < i ==> #[trigger] r@[j]@ == v@[j]@,
                decreases v@.len() - i,
            {
                r.push(copy_node(&v[i]));
                i = i + 1;
            }
            assert(nodes_view(r@) =~= nodes_view(v@));
        },
        None => {
            assert(nodes_view(r@) =~= Seq::<NodeView>::empty());
        },
    }
    r
}

} // verus!

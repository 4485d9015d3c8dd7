//! A snapshot of the rendered component tree, reduced to exactly what
//! extraction reads: per-scope error and serialize contexts, an optional
//! suspended-children snapshot, an optional mounted root node, and the
//! dynamic children of each node.
use vstd::prelude::*;

verus! {

/// One unit of hydration data held by a scope's serialize context: an opaque
/// binary-encoded value, plus the declared type name and capture-site
/// location recorded for diagnostics (either may be absent).
pub struct CapturedRecord {
    /// The binary-encoded value; `None` is a present-but-empty slot.
    pub value: Option<Vec<u8>>,
    /// The declared type name of the value, if recorded.
    pub debug_type: Option<String>,
    /// The capture-site location of the value, if recorded.
    pub debug_location: Option<String>,
}

/// A dynamic child of a rendered node. Only components and fragments
/// matter to extraction; every other node kind contributes nothing.
pub enum DynamicNode {
    /// A component reference, resolved to its scope; `None` when the scope
    /// no longer exists in the tree (already unmounted).
    Component(Option<Box<Scope>>),
    /// An ordered group of child nodes.
    Fragment(Vec<VNode>),
    /// Any other node kind, transparent to extraction.
    Other,
}

/// A rendered node: an ordered sequence of dynamic child nodes.
pub struct VNode {
    pub dynamic_nodes: Vec<DynamicNode>,
}

/// An addressable unit of component state within the tree.
pub struct Scope {
    /// The errors caught at this scope, each already binary-encoded,
    /// in the order they were caught; absent when the scope has no
    /// error context.
    pub error_context: Option<Vec<Vec<u8>>>,
    /// The serializable context attached by application code, if any.
    pub serialize_context: Option<Vec<CapturedRecord>>,
    /// The snapshot of suspended children, present exactly when this scope
    /// is a suspense boundary that holds one.
    pub suspended_nodes: Option<VNode>,
    /// The currently mounted root node, if any.
    pub root_node: Option<VNode>,
}

/// The mathematical shadow of one captured record.
pub struct RecordModel {
    pub value: Option<Seq<u8>>,
    pub debug_type: Option<Seq<char>>,
    pub debug_location: Option<Seq<char>>,
}

/// What one stored record contributes to the output.
pub open spec fn record_model(r: CapturedRecord) -> RecordModel {
    RecordModel {
        value: r.value.deep_view(),
        debug_type: r.debug_type.deep_view(),
        debug_location: r.debug_location.deep_view(),
    }
}

/// The record a boundary's error slot contributes: the first caught error
/// when one exists, else a present-but-empty slot. It carries no debug
/// metadata of its own.
pub open spec fn error_slot(s: Scope) -> RecordModel {
    RecordModel {
        value: match s.error_context {
            Some(errors) => {
                if errors.deep_view().len() > 0 {
                    Some(errors.deep_view()[0])
                } else {
                    None
                }
            },
            None => None,
        },
        debug_type: None,
        debug_location: None,
    }
}

/// The models of a sequence of stored records, in order.
pub open spec fn record_models(rs: Seq<CapturedRecord>) -> Seq<RecordModel> {
    rs.map_values(|r: CapturedRecord| record_model(r))
}

/// The records a scope's own serialize context contributes, in that
/// context's internal order.
pub open spec fn context_records(s: Scope) -> Seq<RecordModel> {
    match s.serialize_context {
        Some(c) => record_models(c@),
        None => Seq::empty(),
    }
}

/// The records a scope contributes, context first, then the suspended
/// snapshot's subtree, then the mounted root's subtree.
pub open spec fn scope_records(s: Scope) -> Seq<RecordModel>
    decreases s,
{
    context_records(s) + (match s.suspended_nodes {
        Some(n) => vnode_records(n),
        None => Seq::empty(),
    }) + (match s.root_node {
        Some(n) => vnode_records(n),
        None => Seq::empty(),
    })
}

/// The records a node contributes: those of its dynamic children, in order.
pub open spec fn vnode_records(n: VNode) -> Seq<RecordModel>
    decreases n,
{
    dynamic_node_list_records(n.dynamic_nodes@)
}

/// The records of a sequence of dynamic nodes, in order.
pub open spec fn dynamic_node_list_records(nodes: Seq<DynamicNode>) -> Seq<RecordModel>
    decreases nodes,
{
    if nodes.len() == 0 {
        Seq::empty()
    } else {
        dynamic_node_list_records(nodes.drop_last()) + dynamic_node_records(nodes.last())
    }
}

/// The records one dynamic node contributes: a mounted component yields its
/// scope's records, a fragment those of its children in order, everything
/// else nothing.
pub open spec fn dynamic_node_records(d: DynamicNode) -> Seq<RecordModel>
    decreases d,
{
    match d {
        DynamicNode::Component(Some(s)) => scope_records(*s),
        DynamicNode::Component(None) => Seq::empty(),
        DynamicNode::Fragment(nodes) => vnode_list_records(nodes@),
        DynamicNode::Other => Seq::empty(),
    }
}

/// The records of a sequence of nodes, in order.
pub open spec fn vnode_list_records(nodes: Seq<VNode>) -> Seq<RecordModel>
    decreases nodes,
{
    if nodes.len() == 0 {
        Seq::empty()
    } else {
        vnode_list_records(nodes.drop_last()) + vnode_records(nodes.last())
    }
}

/// The records a suspense boundary contributes: its error slot first,
/// then everything its scope contributes.
pub open spec fn boundary_records(s: Scope) -> Seq<RecordModel> {
    seq![error_slot(s)] + scope_records(s)
}

/// The value column of a record sequence.
pub open spec fn values_of(records: Seq<RecordModel>) -> Seq<Option<Seq<u8>>> {
    records.map_values(|r: RecordModel| r.value)
}

/// The type-name column of a record sequence.
pub open spec fn types_of(records: Seq<RecordModel>) -> Seq<Option<Seq<char>>> {
    records.map_values(|r: RecordModel| r.debug_type)
}

/// The location column of a record sequence.
pub open spec fn locations_of(records: Seq<RecordModel>) -> Seq<Option<Seq<char>>> {
    records.map_values(|r: RecordModel| r.debug_location)
}

/// Every record from a suspended snapshot's subtree precedes every record
/// from the mounted root's subtree, whatever order the two resolved in:
/// a scope's output is its context records, then the whole suspended
/// subtree's records, then the whole root subtree's records.
pub proof fn lemma_suspended_first(s: Scope)
    requires
        s.suspended_nodes is Some,
        s.root_node is Some,
    ensures
        scope_records(s) == context_records(s) + vnode_records(s.suspended_nodes->Some_0)
            + vnode_records(s.root_node->Some_0),
{
}

/// A boundary with no caught error, whose mounted root holds one component
/// child exposing a single context record followed by one fragment whose
/// nodes contribute nothing, yields exactly two records: the empty error
/// slot, then the child's record, in that order.
pub proof fn lemma_component_child_and_inert_fragment(s: Scope, child: Scope, r: CapturedRecord)
    requires
        s.error_context is None,
        s.serialize_context is None,
        s.suspended_nodes is None,
        s.root_node matches Some(root) && {
            &&& root.dynamic_nodes@.len() == 2
            &&& root.dynamic_nodes@[0] matches DynamicNode::Component(Some(c)) && *c == child
            &&& root.dynamic_nodes@[1] matches DynamicNode::Fragment(nodes) && vnode_list_records(
                nodes@,
            ) == Seq::<RecordModel>::empty()
        },
        child.serialize_context matches Some(cr) && cr@ == seq![r],
        child.suspended_nodes is None,
        child.root_node is None,
    ensures
        boundary_records(s) == seq![error_slot(s), record_model(r)],
        error_slot(s).value is None,
{
    reveal_with_fuel(dynamic_node_list_records, 3);
    let root = s.root_node->0;
    let dns = root.dynamic_nodes@;
    assert(record_models(child.serialize_context->0@) =~= seq![record_model(r)]);
    assert(scope_records(child) =~= seq![record_model(r)]);
    assert(dns.drop_last() =~= seq![dns[0]]);
    assert(dns.drop_last().drop_last() =~= Seq::<DynamicNode>::empty());
    assert(dns.drop_last().last() == dns[0]);
    assert(dns.last() == dns[1]);
    assert(dynamic_node_records(dns[1]) == Seq::<RecordModel>::empty());
    assert(dynamic_node_records(dns[0]) == scope_records(child));
    assert(dynamic_node_list_records(dns) =~= seq![record_model(r)]);
    assert(scope_records(s) =~= seq![record_model(r)]);
    assert(boundary_records(s) =~= seq![error_slot(s), record_model(r)]);
}

/// Extracting from a scope with no error context, no serializable context
/// and no children yields no records at all.
pub proof fn lemma_empty_scope_extracts_nothing(s: Scope)
    requires
        s.error_context is None,
        s.serialize_context is None,
        s.suspended_nodes is None,
        s.root_node is None,
    ensures
        scope_records(s).len() == 0,
{
    assert(scope_records(s) =~= Seq::empty());
}

} // verus!

//! The accumulator of hydration records and the depth-first walk that
//! fills it from a tree snapshot.
use vstd::prelude::*;
use crate::tree::CapturedRecord;
use crate::tree::DynamicNode;
use crate::tree::RecordModel;
use crate::tree::Scope;
use crate::tree::VNode;
use crate::tree::boundary_records;
use crate::tree::context_records;
use crate::tree::dynamic_node_list_records;
use crate::tree::dynamic_node_records;
use crate::tree::error_slot;
use crate::tree::locations_of;
use crate::tree::record_model;
use crate::tree::record_models;
use crate::tree::scope_records;
use crate::tree::types_of;
use crate::tree::values_of;
use crate::tree::vnode_list_records;
use crate::tree::vnode_records;

verus! {

/// The ordered hydration data collected from one extraction, with two
/// parallel metadata lists kept only when diagnostics are enabled.
pub struct HTMLData {
    /// The records, in discovery order; `None` is a present-but-empty slot.
    pub data: Vec<Option<Vec<u8>>>,
    /// The declared type name of each record, when diagnostics are enabled.
    pub debug_types: Vec<Option<String>>,
    /// The capture-site location of each record, when diagnostics are enabled.
    pub debug_locations: Vec<Option<String>>,
    /// Whether diagnostics metadata is collected.
    pub debug_enabled: bool,
}

impl HTMLData {
    /// The record values, in order.
    pub open spec fn records(self) -> Seq<Option<Seq<u8>>> {
        self.data.deep_view()
    }

    /// The recorded type names, in order.
    pub open spec fn types(self) -> Seq<Option<Seq<char>>> {
        self.debug_types.deep_view()
    }

    /// The recorded capture locations, in order.
    pub open spec fn locations(self) -> Seq<Option<Seq<char>>> {
        self.debug_locations.deep_view()
    }

    /// The metadata lists run in lockstep with the data when diagnostics
    /// are enabled, and are empty otherwise.
    pub open spec fn wf(self) -> bool {
        if self.debug_enabled {
            self.types().len() == self.records().len() && self.locations().len()
                == self.records().len()
        } else {
            self.types().len() == 0 && self.locations().len() == 0
        }
    }

    /// An empty accumulator, collecting metadata exactly when asked to.
    pub fn new(debug_enabled: bool) -> (r: Self)
        ensures
            r.wf(),
            r.debug_enabled == debug_enabled,
            r.records() == Seq::<Option<Seq<u8>>>::empty(),
            r.types() == Seq::<Option<Seq<char>>>::empty(),
            r.locations() == Seq::<Option<Seq<char>>>::empty(),
    {
        let r = HTMLData {
            data: Vec::new(),
            debug_types: Vec::new(),
            debug_locations: Vec::new(),
            debug_enabled,
        };
        proof {
            assert(r.records() =~= Seq::<Option<Seq<u8>>>::empty());
            assert(r.types() =~= Seq::<Option<Seq<char>>>::empty());
            assert(r.locations() =~= Seq::<Option<Seq<char>>>::empty());
        }
        r
    }
}

impl Default for HTMLData {
    /// An empty accumulator that collects no metadata.
    fn default() -> (r: Self)
        ensures
            r.wf(),
            !r.debug_enabled,
            r.records() == Seq::<Option<Seq<u8>>>::empty(),
    {
        Self::new(false)
    }
}

/// The accumulator grew from `pre` to `post` by exactly the records `out`,
/// values always, metadata exactly when diagnostics are enabled.
pub open spec fn appends(pre: HTMLData, post: HTMLData, out: Seq<RecordModel>) -> bool {
    &&& post.wf()
    &&& post.debug_enabled == pre.debug_enabled
    &&& post.records() == pre.records() + values_of(out)
    &&& pre.debug_enabled ==> post.types() == pre.types() + types_of(out)
    &&& pre.debug_enabled ==> post.locations() == pre.locations() + locations_of(out)
    &&& !pre.debug_enabled ==> post.types() == pre.types() && post.locations() == pre.locations()
}

/// Whenever diagnostics are enabled, the accumulator's two metadata lists
/// run in lockstep with its data, one entry per record; when diagnostics
/// are disabled, no metadata is kept at all.
pub proof fn lemma_debug_metadata_alignment(d: HTMLData)
    requires
        d.wf(),
    ensures
        d.debug_enabled ==> d.types().len() == d.records().len() && d.locations().len()
            == d.records().len(),
        !d.debug_enabled ==> d.types().len() == 0 && d.locations().len() == 0,
{
}

/// The three columns of a record sequence distribute over concatenation.
proof fn lemma_columns_add(a: Seq<RecordModel>, b: Seq<RecordModel>)
    ensures
        values_of(a + b) == values_of(a) + values_of(b),
        types_of(a + b) == types_of(a) + types_of(b),
        locations_of(a + b) == locations_of(a) + locations_of(b),
{
    assert(values_of(a + b) =~= values_of(a) + values_of(b));
    assert(types_of(a + b) =~= types_of(a) + types_of(b));
    assert(locations_of(a + b) =~= locations_of(a) + locations_of(b));
}

/// Growing by nothing leaves the accumulator as it stands.
proof fn lemma_appends_refl(a: HTMLData)
    requires
        a.wf(),
    ensures
        appends(a, a, Seq::empty()),
{
    assert(a.records() =~= a.records() + values_of(Seq::empty()));
    assert(a.types() =~= a.types() + types_of(Seq::empty()));
    assert(a.locations() =~= a.locations() + locations_of(Seq::empty()));
}

/// Two growths in a row are one growth by the concatenation.
proof fn lemma_appends_trans(
    a: HTMLData,
    b: HTMLData,
    c: HTMLData,
    out1: Seq<RecordModel>,
    out2: Seq<RecordModel>,
)
    requires
        appends(a, b, out1),
        appends(b, c, out2),
    ensures
        appends(a, c, out1 + out2),
{
    lemma_columns_add(out1, out2);
    assert(c.records() =~= a.records() + values_of(out1 + out2));
    if a.debug_enabled {
        assert(c.types() =~= a.types() + types_of(out1 + out2));
        assert(c.locations() =~= a.locations() + locations_of(out1 + out2));
    }
}

/// A clone of a byte vector holds the same bytes.
proof fn lemma_cloned_bytes(a: Vec<u8>, b: Vec<u8>)
    requires
        cloned(a, b),
    ensures
        b@ == a@,
        b.deep_view() == a.deep_view(),
{
    if b != a {
        assert forall|i: int| 0 <= i < a@.len() implies a@[i] == b@[i] by {
            assert(cloned::<u8>(a[i], b[i]));
        }
        assert(a@ =~= b@);
    }
    assert(b.deep_view() =~= a.deep_view());
}

/// A clone of an optional byte vector has the same deep view.
proof fn lemma_cloned_opt_bytes(a: Option<Vec<u8>>, b: Option<Vec<u8>>)
    requires
        a is None ==> b is None,
        a is Some ==> b is Some && cloned(a->0, b->0),
    ensures
        b.deep_view() == a.deep_view(),
{
    if a is Some {
        lemma_cloned_bytes(a->0, b->0);
    }
}

/// A clone of an optional string has the same deep view.
proof fn lemma_cloned_opt_string(a: Option<String>, b: Option<String>)
    requires
        a is None ==> b is None,
        a is Some ==> b is Some && cloned(a->0, b->0),
    ensures
        b.deep_view() == a.deep_view(),
{
}

impl HTMLData {
    /// Append one record: its value always, its metadata exactly when
    /// diagnostics are enabled.
    pub fn push(
        &mut self,
        value: Option<Vec<u8>>,
        debug_type: Option<String>,
        debug_location: Option<String>,
    )
        requires
            old(self).wf(),
        ensures
            appends(
                *old(self),
                *final(self),
                seq![
                    (RecordModel {
                        value: value.deep_view(),
                        debug_type: debug_type.deep_view(),
                        debug_location: debug_location.deep_view(),
                    }),
                ],
            ),
    {
        let ghost out = seq![
            (RecordModel {
                value: value.deep_view(),
                debug_type: debug_type.deep_view(),
                debug_location: debug_location.deep_view(),
            }),
        ];
        self.data.push(value);
        if self.debug_enabled {
            self.debug_types.push(debug_type);
            self.debug_locations.push(debug_location);
        }
        proof {
            assert(self.records() =~= old(self).records() + values_of(out));
            if self.debug_enabled {
                assert(self.types() =~= old(self).types() + types_of(out));
                assert(self.locations() =~= old(self).locations() + locations_of(out));
            } else {
                assert(self.types() =~= old(self).types());
                assert(self.locations() =~= old(self).locations());
            }
        }
    }

    /// Append every record of a serialize context, in its internal order.
    #[verifier::loop_isolation(false)]
    pub fn extend(&mut self, records: &Vec<CapturedRecord>)
        requires
            old(self).wf(),
        ensures
            appends(*old(self), *final(self), record_models(records@)),
    {
        let ghost pre = *self;
        let ghost rs = records@;
        proof {
            lemma_appends_refl(pre);
            assert(record_models(rs.take(0)) =~= Seq::empty());
        }
        for i in 0..records.len()
            invariant
                rs == records@,
                appends(pre, *self, record_models(rs.take(i as int))),
        {
            let ghost mid = *self;
            let value = records[i].value.clone();
            let debug_type = records[i].debug_type.clone();
            let debug_location = records[i].debug_location.clone();
            proof {
                lemma_cloned_opt_bytes(rs[i as int].value, value);
                lemma_cloned_opt_string(rs[i as int].debug_type, debug_type);
                lemma_cloned_opt_string(rs[i as int].debug_location, debug_location);
            }
            self.push(value, debug_type, debug_location);
            proof {
                lemma_appends_trans(
                    pre,
                    mid,
                    *self,
                    record_models(rs.take(i as int)),
                    seq![record_model(rs[i as int])],
                );
                assert(record_models(rs.take(i as int)) + seq![record_model(rs[i as int])]
                    =~= record_models(rs.take(i + 1)));
            }
        }
        proof {
            assert(rs.take(rs.len() as int) =~= rs);
        }
    }

    /// Record the boundary's error slot: the first error caught at the
    /// scope when one exists, else a present-but-empty slot. The slot
    /// carries no metadata of its own.
    pub fn serialize_errors(&mut self, scope: &Scope)
        requires
            old(self).wf(),
        ensures
            appends(*old(self), *final(self), seq![error_slot(*scope)]),
    {
        let error: Option<Vec<u8>> = match &scope.error_context {
            Some(errors) => {
                if errors.len() > 0 {
                    let e = errors[0].clone();
                    proof {
                        lemma_cloned_bytes(scope.error_context->0[0], e);
                        assert(scope.error_context->0.deep_view()[0]
                            == scope.error_context->0[0].deep_view());
                    }
                    Some(e)
                } else {
                    None
                }
            },
            None => None,
        };
        proof {
            assert(error.deep_view() == error_slot(*scope).value);
        }
        self.push(error, None, None);
    }

    /// Walk one scope: its own serialize context first, then the suspended
    /// snapshot's subtree if the scope holds one, then the mounted root's.
    pub fn take_from_scope(&mut self, scope: &Scope)
        requires
            old(self).wf(),
        ensures
            appends(*old(self), *final(self), scope_records(*scope)),
        decreases *scope,
    {
        let ghost pre = *self;
        proof {
            lemma_appends_refl(pre);
        }
        let ghost done = Seq::<RecordModel>::empty();
        if let Some(context) = &scope.serialize_context {
            let ghost mid = *self;
            self.extend(context);
            proof {
                lemma_appends_trans(pre, mid, *self, done, record_models(context@));
            }
        }
        let ghost done = done + context_records(*scope);
        proof {
            assert(Seq::<RecordModel>::empty() + context_records(*scope) =~= context_records(
                *scope,
            ));
            assert(appends(pre, *self, done));
        }
        if let Some(node) = &scope.suspended_nodes {
            let ghost mid = *self;
            self.take_from_vnode(node);
            proof {
                lemma_appends_trans(pre, mid, *self, done, vnode_records(*node));
            }
        }
        let ghost done = done + (match &scope.suspended_nodes {
            Some(n) => vnode_records(*n),
            None => Seq::<RecordModel>::empty(),
        });
        proof {
            assert(appends(pre, *self, done));
        }
        if let Some(node) = &scope.root_node {
            let ghost mid = *self;
            self.take_from_vnode(node);
            proof {
                lemma_appends_trans(pre, mid, *self, done, vnode_records(*node));
            }
        }
        proof {
            assert(scope_records(*scope) =~= done + (match scope.root_node {
                Some(n) => vnode_records(n),
                None => Seq::<RecordModel>::empty(),
            }));
        }
    }

    /// Walk one node's dynamic children in order: a mounted component
    /// yields its scope's records, a fragment its children's in order,
    /// anything else nothing.
    #[verifier::loop_isolation(false)]
    pub fn take_from_vnode(&mut self, vnode: &VNode)
        requires
            old(self).wf(),
        ensures
            appends(*old(self), *final(self), vnode_records(*vnode)),
        decreases *vnode,
    {
        let ghost pre = *self;
        let ghost dns = vnode.dynamic_nodes@;
        proof {
            lemma_appends_refl(pre);
            assert(dynamic_node_list_records(dns.take(0)) =~= Seq::empty());
        }
        for i in 0..vnode.dynamic_nodes.len()
            invariant
                dns == vnode.dynamic_nodes@,
                appends(pre, *self, dynamic_node_list_records(dns.take(i as int))),
        {
            let ghost mid = *self;
            match &vnode.dynamic_nodes[i] {
                DynamicNode::Component(mounted) => {
                    if let Some(scope) = mounted {
                        proof {
                            assert(decreases_to!(*vnode => dns));
                            assert(decreases_to!(dns => dns[i as int]));
                            assert(decreases_to!(dns[i as int] => **scope));
                        }
                        self.take_from_scope(&**scope);
                    }
                },
                DynamicNode::Fragment(nodes) => {
                    let ghost ns = nodes@;
                    proof {
                        assert(vnode_list_records(ns.take(0)) =~= Seq::empty());
                        assert(appends(mid, *self, vnode_list_records(ns.take(0)))) by {
                            lemma_appends_refl(mid);
                        }
                    }
                    for j in 0..nodes.len()
                        invariant
                            ns == nodes@,
                            appends(mid, *self, vnode_list_records(ns.take(j as int))),
                    {
                        let ghost frag_mid = *self;
                        proof {
                            assert(decreases_to!(*vnode => dns));
                            assert(decreases_to!(dns => dns[i as int]));
                            assert(decreases_to!(dns[i as int] => ns));
                            assert(decreases_to!(ns => ns[j as int]));
                        }
                        self.take_from_vnode(&nodes[j]);
                        proof {
                            lemma_appends_trans(
                                mid,
                                frag_mid,
                                *self,
                                vnode_list_records(ns.take(j as int)),
                                vnode_records(ns[j as int]),
                            );
                            assert(ns.take(j + 1).drop_last() =~= ns.take(j as int));
                            assert(vnode_list_records(ns.take(j as int)) + vnode_records(
                                ns[j as int],
                            ) =~= vnode_list_records(ns.take(j + 1)));
                        }
                    }
                    proof {
                        assert(ns.take(ns.len() as int) =~= ns);
                    }
                },
                DynamicNode::Other => {},
            }
            proof {
                assert(appends(mid, *self, dynamic_node_records(dns[i as int])));
                lemma_appends_trans(
                    pre,
                    mid,
                    *self,
                    dynamic_node_list_records(dns.take(i as int)),
                    dynamic_node_records(dns[i as int]),
                );
                assert(dns.take(i + 1).drop_last() =~= dns.take(i as int));
                assert(dynamic_node_list_records(dns.take(i as int)) + dynamic_node_records(
                    dns[i as int],
                ) =~= dynamic_node_list_records(dns.take(i + 1)));
            }
        }
        proof {
            assert(dns.take(dns.len() as int) =~= dns);
        }
    }

    /// Walk the suspense boundary rooted at a scope, depth first, and
    /// collect everything it contributes: its error slot first, then its
    /// scope's records. Metadata is collected exactly when asked for.
    pub fn extract_from_suspense_boundary(scope: &Scope, debug_enabled: bool) -> (r: Self)
        ensures
            r.wf(),
            r.debug_enabled == debug_enabled,
            r.records() == values_of(boundary_records(*scope)),
            debug_enabled ==> r.types() == types_of(boundary_records(*scope)),
            debug_enabled ==> r.locations() == locations_of(boundary_records(*scope)),
    {
        let mut data = HTMLData::new(debug_enabled);
        let ghost fresh = data;
        data.serialize_errors(scope);
        let ghost mid = data;
        data.take_from_scope(scope);
        proof {
            lemma_appends_trans(
                fresh,
                mid,
                data,
                seq![error_slot(*scope)],
                scope_records(*scope),
            );
            assert(data.records() =~= values_of(boundary_records(*scope)));
            if debug_enabled {
                assert(data.types() =~= types_of(boundary_records(*scope)));
                assert(data.locations() =~= locations_of(boundary_records(*scope)));
            }
        }
        data
    }
}

} // verus!

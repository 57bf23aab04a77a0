//! The computation graph: nodes and values held in arenas, with the
//! producer and consumer of every value registered for quick lookup.

use vstd::prelude::*;
use std::collections::HashMap;
use crate::graph::objects::{Node, NodeId, Tensor, ValueId};
use crate::utils::arena::Arena;
use crate::utils::error::{ErrorView, OnnxOptError};

verus! {

broadcast use vstd::std_specs::hash::group_hash_axioms;

/// The list registered for `v`, or the empty list.
pub open spec fn list_or_empty(m: Map<u32, Seq<NodeId>>, v: u32) -> Seq<NodeId> {
    if m.contains_key(v) {
        m[v]
    } else {
        Seq::empty()
    }
}

/// The producer map after registering `id` as the producer of each value in
/// `outs`, in order.
pub open spec fn register_producers(m: Map<u32, NodeId>, outs: Seq<ValueId>, id: NodeId) -> Map<
    u32,
    NodeId,
>
    decreases outs.len(),
{
    if outs.len() == 0 {
        m
    } else {
        register_producers(m, outs.drop_last(), id).insert(outs.last().0, id)
    }
}

/// The consumer map after appending `id` to the consumer list of each value
/// in `ins`, in order (once per occurrence).
pub open spec fn register_consumers(m: Map<u32, Seq<NodeId>>, ins: Seq<ValueId>, id: NodeId) -> Map<
    u32,
    Seq<NodeId>,
>
    decreases ins.len(),
{
    if ins.len() == 0 {
        m
    } else {
        let prev = register_consumers(m, ins.drop_last(), id);
        prev.insert(ins.last().0, list_or_empty(prev, ins.last().0).push(id))
    }
}

/// The producer map after dropping the entries of the values in `outs`.
pub open spec fn unregister_producers(m: Map<u32, NodeId>, outs: Seq<ValueId>) -> Map<u32, NodeId>
    decreases outs.len(),
{
    if outs.len() == 0 {
        m
    } else {
        unregister_producers(m, outs.drop_last()).remove(outs.last().0)
    }
}

/// The predicate "is not `id`".
pub open spec fn other_than(id: NodeId) -> spec_fn(NodeId) -> bool {
    |n: NodeId| n != id
}

/// Drops `id` from the consumer list of `v`; a list left empty is dropped.
pub open spec fn drop_consumer(m: Map<u32, Seq<NodeId>>, v: u32, id: NodeId) -> Map<
    u32,
    Seq<NodeId>,
> {
    if m.contains_key(v) {
        let kept = m[v].filter(other_than(id));
        if kept.len() == 0 {
            m.remove(v)
        } else {
            m.insert(v, kept)
        }
    } else {
        m
    }
}

/// The consumer map after dropping `id` from the list of each value in
/// `ins`, in order.
pub open spec fn unregister_consumers(m: Map<u32, Seq<NodeId>>, ins: Seq<ValueId>, id: NodeId) -> Map<
    u32,
    Seq<NodeId>,
>
    decreases ins.len(),
{
    if ins.len() == 0 {
        m
    } else {
        drop_consumer(unregister_consumers(m, ins.drop_last(), id), ins.last().0, id)
    }
}

/// `s` with every occurrence of `from` replaced by `to`.
pub open spec fn replace_id(s: Seq<ValueId>, from: ValueId, to: ValueId) -> Seq<ValueId> {
    s.map_values(|x: ValueId| if x == from { to } else { x })
}

/// Every registered producer is a live node that lists the value among its
/// outputs.
pub open spec fn producers_consistent(nodes: Map<u32, Node>, prod: Map<u32, NodeId>) -> bool {
    forall|v: u32|
        #[trigger] prod.contains_key(v) ==> {
            &&& nodes.contains_key(prod[v].0)
            &&& nodes[prod[v].0].outputs@.contains(ValueId(v))
        }
}

/// Every node on the consumer list of `v` is live and lists `v` among its
/// inputs.
pub open spec fn consumers_consistent_at(
    nodes: Map<u32, Node>,
    cons: Map<u32, Seq<NodeId>>,
    v: u32,
) -> bool {
    forall|k: int|
        0 <= k < cons[v].len() ==> {
            &&& nodes.contains_key(#[trigger] cons[v][k].0)
            &&& nodes[cons[v][k].0].inputs@.contains(ValueId(v))
        }
}

pub open spec fn consumers_consistent(nodes: Map<u32, Node>, cons: Map<u32, Seq<NodeId>>) -> bool {
    forall|v: u32| #[trigger] cons.contains_key(v) ==> consumers_consistent_at(nodes, cons, v)
}

/// Membership in a non-empty sequence: in the prefix, or the last element.
pub proof fn lemma_contains_split_last<A>(s: Seq<A>, x: A)
    requires
        s.len() > 0,
    ensures
        s.contains(x) <==> s.drop_last().contains(x) || s.last() == x,
{
    if s.drop_last().contains(x) {
        let k = choose|k: int| 0 <= k < s.drop_last().len() && s.drop_last()[k] == x;
        assert(s[k] == x);
    }
    if s.contains(x) && s.last() != x {
        let k = choose|k: int| 0 <= k < s.len() && s[k] == x;
        assert(s.drop_last()[k] == x);
    }
    if s.last() == x {
        assert(s[s.len() - 1] == x);
    }
}

/// Dropping the producers of `outs` drops exactly the entries of the
/// values listed in `outs`.
pub proof fn lemma_unregister_producers(m: Map<u32, NodeId>, outs: Seq<ValueId>)
    ensures
        forall|v: u32|
            #![trigger unregister_producers(m, outs).contains_key(v)]
            {
                &&& unregister_producers(m, outs).contains_key(v) <==> m.contains_key(v)
                    && !outs.contains(ValueId(v))
                &&& unregister_producers(m, outs).contains_key(v) ==> unregister_producers(
                    m,
                    outs,
                )[v] == m[v]
            },
    decreases outs.len(),
{
    if outs.len() > 0 {
        let prev = outs.drop_last();
        lemma_unregister_producers(m, prev);
        let r = unregister_producers(m, prev);
        assert(unregister_producers(m, outs) == r.remove(outs.last().0));
        assert forall|v: u32|
            #![trigger unregister_producers(m, outs).contains_key(v)]
            {
                &&& unregister_producers(m, outs).contains_key(v) <==> m.contains_key(v)
                    && !outs.contains(ValueId(v))
                &&& unregister_producers(m, outs).contains_key(v) ==> unregister_producers(
                    m,
                    outs,
                )[v] == m[v]
            } by {
            lemma_contains_split_last(outs, ValueId(v));
            assert(r.contains_key(v) <==> m.contains_key(v) && !prev.contains(ValueId(v)));
        }
    }
}

/// Dropping `id` from the lists of the values in `ins` filters exactly those
/// lists, and drops the ones left empty.
pub proof fn lemma_unregister_consumers(m: Map<u32, Seq<NodeId>>, ins: Seq<ValueId>, id: NodeId)
    ensures
        forall|v: u32|
            #![trigger unregister_consumers(m, ins, id).contains_key(v)]
            {
                &&& unregister_consumers(m, ins, id).contains_key(v) <==> m.contains_key(v) && !(
                ins.contains(ValueId(v)) && m[v].filter(other_than(id)).len() == 0)
                &&& unregister_consumers(m, ins, id).contains_key(v) ==> unregister_consumers(
                    m,
                    ins,
                    id,
                )[v] == (if ins.contains(ValueId(v)) {
                    m[v].filter(other_than(id))
                } else {
                    m[v]
                })
            },
    decreases ins.len(),
{
    if ins.len() > 0 {
        let prev = ins.drop_last();
        lemma_unregister_consumers(m, prev, id);
        let r = unregister_consumers(m, prev, id);
        let w = ins.last().0;
        assert(unregister_consumers(m, ins, id) == drop_consumer(r, w, id));
        if m.contains_key(w) {
            let f = m[w].filter(other_than(id));
            assert forall|k: int| 0 <= k < f.len() implies #[trigger] f[k] != id by {
                m[w].lemma_filter_pred(other_than(id), k);
            }
            lemma_filter_all_true(f, id);
        }
        assert forall|v: u32|
            #![trigger unregister_consumers(m, ins, id).contains_key(v)]
            {
                &&& unregister_consumers(m, ins, id).contains_key(v) <==> m.contains_key(v) && !(
                ins.contains(ValueId(v)) && m[v].filter(other_than(id)).len() == 0)
                &&& unregister_consumers(m, ins, id).contains_key(v) ==> unregister_consumers(
                    m,
                    ins,
                    id,
                )[v] == (if ins.contains(ValueId(v)) {
                    m[v].filter(other_than(id))
                } else {
                    m[v]
                })
            } by {
            lemma_contains_split_last(ins, ValueId(v));
            assert(r.contains_key(v) <==> m.contains_key(v) && !(prev.contains(ValueId(v))
                && m[v].filter(other_than(id)).len() == 0));
            assert(r.contains_key(v) ==> r[v] == (if prev.contains(ValueId(v)) {
                m[v].filter(other_than(id))
            } else {
                m[v]
            }));
            let res = unregister_consumers(m, ins, id);
            if v == w {
                if r.contains_key(w) {
                    assert(r[w].filter(other_than(id)) == m[w].filter(other_than(id)));
                }
                assert(res.contains_key(v) <==> m.contains_key(v) && !(ins.contains(ValueId(v)) && m[v].filter(other_than(id)).len() == 0));
                assert(res.contains_key(v) ==> res[v] == m[v].filter(other_than(id)));
            } else {
                assert(res == drop_consumer(r, w, id));
                assert(res.contains_key(v) == r.contains_key(v));
                assert(res.contains_key(v) ==> res[v] == r[v]);
            }
        }
    }
}

/// Filtering out a node that does not occur changes nothing.
proof fn lemma_filter_all_true(s: Seq<NodeId>, id: NodeId)
    requires
        forall|k: int| 0 <= k < s.len() ==> #[trigger] s[k] != id,
    ensures
        s.filter(other_than(id)) == s,
    decreases s.len(),
{
    reveal_with_fuel(Seq::filter, 1);
    if s.len() > 0 {
        lemma_filter_all_true(s.drop_last(), id);
        assert(s.drop_last().push(s.last()) =~= s);
    } else {
        assert(s.filter(other_than(id)) =~= s);
    }
}

/// Replacing `from` by `to` keeps every other element present, and puts `to`
/// where `from` was.
pub proof fn lemma_replace_id_contains(s: Seq<ValueId>, from: ValueId, to: ValueId, x: ValueId)
    ensures
        x != from && s.contains(x) ==> replace_id(s, from, to).contains(x),
        s.contains(from) ==> replace_id(s, from, to).contains(to),
        replace_id(s, from, to).len() == s.len(),
{
    if x != from && s.contains(x) {
        let k = choose|k: int| 0 <= k < s.len() && s[k] == x;
        assert(replace_id(s, from, to)[k] == x);
    }
    if s.contains(from) {
        let k = choose|k: int| 0 <= k < s.len() && s[k] == from;
        assert(replace_id(s, from, to)[k] == to);
    }
}

/// `new_node` is `old_node` with its inputs `from` replaced by `to`.
pub open spec fn inputs_replaced(old_node: Node, new_node: Node, from: ValueId, to: ValueId) -> bool {
    &&& new_node.name == old_node.name
    &&& new_node.op_kind == old_node.op_kind
    &&& new_node.outputs == old_node.outputs
    &&& new_node.attributes == old_node.attributes
    &&& new_node.inputs@ == replace_id(old_node.inputs@, from, to)
}

/// Replaces every occurrence of `from` in `ids` by `to`.
fn replace_in_place(ids: &mut Vec<ValueId>, from: ValueId, to: ValueId)
    ensures
        final(ids)@ == replace_id(old(ids)@, from, to),
{
    let mut i: usize = 0;
    while i < ids.len()
        invariant
            i <= ids@.len(),
            ids@.len() == old(ids)@.len(),
            forall|k: int| 0 <= k < i ==> ids@[k] == (if old(ids)@[k] == from { to } else { old(ids)@[k] }),
            forall|k: int| i <= k < ids@.len() ==> ids@[k] == old(ids)@[k],
        decreases ids@.len() - i,
    {
        if ids[i] == from {
            ids.set(i, to);
        }
        i = i + 1;
    }
    assert(ids@ =~= replace_id(old(ids)@, from, to));
}

/// `list` without the occurrences of `node`, in order.
fn without_node(list: &Vec<NodeId>, node: NodeId) -> (kept: Vec<NodeId>)
    ensures
        kept@ == list@.filter(other_than(node)),
{
    let mut kept: Vec<NodeId> = Vec::new();
    let mut i: usize = 0;
    while i < list.len()
        invariant
            i <= list@.len(),
            kept@ == list@.take(i as int).filter(other_than(node)),
        decreases list@.len() - i,
    {
        let n = list[i];
        proof {
            list@.take(i as int).lemma_filter_push(n, other_than(node));
            assert(list@.take(i + 1) =~= list@.take(i as int).push(n));
        }
        if n != node {
            kept.push(n);
        }
        i = i + 1;
    }
    proof {
        assert(list@.take(list@.len() as int) =~= list@);
    }
    kept
}

/// Node `k` can be replaced by a constant: it is live and has exactly one
/// output, a live value.
pub open spec fn constant_replaceable(g: Graph, k: u32) -> bool {
    &&& g.node_map().contains_key(k)
    &&& g.node_map()[k].outputs@.len() == 1
    &&& g.value_map().contains_key(g.node_map()[k].outputs@[0].0)
}

/// The text of the error for a node that cannot be replaced by a constant.
pub open spec fn not_replaceable_text() -> Seq<char> {
    "Node cannot be replaced by a constant: it needs exactly one output value"@
}

/// The computation graph.
#[derive(Debug)]
pub struct Graph {
    pub nodes: Arena<Node, NodeId>,
    pub values: Arena<Tensor, ValueId>,
    pub topo_cache: Option<Vec<NodeId>>,
    value_producer: HashMap<u32, NodeId>,
    value_consumers: HashMap<u32, Vec<NodeId>>,
    graph_input_values: Vec<ValueId>,
    graph_output_values: Vec<ValueId>,
}

impl Graph {
    /// The node arena.
    pub closed spec fn node_arena(&self) -> Arena<Node, NodeId> {
        self.nodes
    }

    /// The value arena.
    pub closed spec fn value_arena(&self) -> Arena<Tensor, ValueId> {
        self.values
    }

    /// The cached topological order, if any.
    pub closed spec fn cached_order(&self) -> Option<Vec<NodeId>> {
        self.topo_cache
    }

    /// The live nodes, keyed by node index.
    pub open spec fn node_map(&self) -> Map<u32, Node> {
        self.node_arena()@
    }

    /// The live values, keyed by value index.
    pub open spec fn value_map(&self) -> Map<u32, Tensor> {
        self.value_arena()@
    }

    /// The node registered as producing each value, keyed by value index.
    pub closed spec fn producers(&self) -> Map<u32, NodeId> {
        self.value_producer@
    }

    /// The nodes registered as consuming each value, keyed by value index.
    pub closed spec fn consumer_lists(&self) -> Map<u32, Seq<NodeId>> {
        self.value_consumers@.map_values(|l: Vec<NodeId>| l@)
    }

    /// Graph-level input values.
    pub closed spec fn input_values(&self) -> Seq<ValueId> {
        self.graph_input_values@
    }

    /// Graph-level output values.
    pub closed spec fn output_values(&self) -> Seq<ValueId> {
        self.graph_output_values@
    }

    /// Internal consistency of the graph.
    pub open spec fn wf(&self) -> bool {
        &&& self.node_arena().wf()
        &&& self.value_arena().wf()
        &&& producers_consistent(self.node_map(), self.producers())
        &&& consumers_consistent(self.node_map(), self.consumer_lists())
    }

    /// Nothing but the node arena and the registrations changed.
    pub open spec fn same_values_and_io(&self, other: &Graph) -> bool {
        &&& self.value_arena() == other.value_arena()
        &&& self.input_values() == other.input_values()
        &&& self.output_values() == other.output_values()
    }

    pub fn new() -> (g: Self)
        ensures
            g.wf(),
            g.node_map() == Map::<u32, Node>::empty(),
            g.value_map() == Map::<u32, Tensor>::empty(),
            g.node_arena().slots() == Seq::<Option<Node>>::empty(),
            g.value_arena().slots() == Seq::<Option<Tensor>>::empty(),
            g.node_arena().free_stack() == Seq::<u32>::empty(),
            g.value_arena().free_stack() == Seq::<u32>::empty(),
            g.cached_order() is None,
            g.producers() == Map::<u32, NodeId>::empty(),
            g.consumer_lists() == Map::<u32, Seq<NodeId>>::empty(),
            g.input_values() == Seq::<ValueId>::empty(),
            g.output_values() == Seq::<ValueId>::empty(),
    {
        let g = Graph {
            nodes: Arena::new(),
            values: Arena::new(),
            topo_cache: None,
            value_producer: HashMap::new(),
            value_consumers: HashMap::new(),
            graph_input_values: Vec::new(),
            graph_output_values: Vec::new(),
        };
        assert(g.consumer_lists() =~= Map::<u32, Seq<NodeId>>::empty());
        g
    }

    /// Get node data by NodeId.
    pub fn node(&self, id: NodeId) -> (r: Option<&Node>)
        requires
            self.wf(),
        ensures
            r is Some <==> self.node_map().contains_key(id.0),
            r is Some ==> *r->Some_0 == self.node_map()[id.0],
    {
        self.nodes.get(id)
    }

    /// Get tensor data by ValueId.
    pub fn tensor(&self, id: ValueId) -> (r: Option<&Tensor>)
        requires
            self.wf(),
        ensures
            r is Some <==> self.value_map().contains_key(id.0),
            r is Some ==> *r->Some_0 == self.value_map()[id.0],
    {
        self.values.get(id)
    }

    /// Input values of a node (empty for a node that is not in the graph).
    pub fn inputs(&self, node: NodeId) -> (r: &[ValueId])
        requires
            self.wf(),
        ensures
            r@ == (if self.node_map().contains_key(node.0) {
                self.node_map()[node.0].inputs@
            } else {
                Seq::<ValueId>::empty()
            }),
    {
        match self.nodes.get(node) {
            Some(n) => n.inputs.as_slice(),
            None => &[],
        }
    }

    /// Output values of a node (empty for a node that is not in the graph).
    pub fn outputs(&self, node: NodeId) -> (r: &[ValueId])
        requires
            self.wf(),
        ensures
            r@ == (if self.node_map().contains_key(node.0) {
                self.node_map()[node.0].outputs@
            } else {
                Seq::<ValueId>::empty()
            }),
    {
        match self.nodes.get(node) {
            Some(n) => n.outputs.as_slice(),
            None => &[],
        }
    }

    /// The node registered as producing `value`.
    pub fn producer(&self, value: ValueId) -> (r: Option<NodeId>)
        ensures
            r == self.producers().get(value.0),
    {
        match self.value_producer.get(&value.0) {
            Some(p) => Some(*p),
            None => None,
        }
    }

    /// The nodes registered as consuming `value`, in registration order.
    pub fn consumers(&self, value: ValueId) -> (r: Vec<NodeId>)
        ensures
            r@ == list_or_empty(self.consumer_lists(), value.0),
    {
        match self.value_consumers.get(&value.0) {
            Some(l) => l.clone(),
            None => Vec::new(),
        }
    }

    /// Graph-level input values.
    pub fn graph_inputs(&self) -> (r: &[ValueId])
        ensures
            r@ == self.input_values(),
    {
        self.graph_input_values.as_slice()
    }

    /// Graph-level output values.
    pub fn graph_outputs(&self) -> (r: &[ValueId])
        ensures
            r@ == self.output_values(),
    {
        self.graph_output_values.as_slice()
    }

    /// Sets the graph-level input values.
    pub(crate) fn set_graph_inputs(&mut self, inputs: Vec<ValueId>)
        ensures
            final(self).input_values() == inputs@,
            final(self).output_values() == old(self).output_values(),
            final(self).node_arena() == old(self).node_arena(),
            final(self).value_arena() == old(self).value_arena(),
            final(self).producers() == old(self).producers(),
            final(self).consumer_lists() == old(self).consumer_lists(),
            final(self).cached_order() == old(self).cached_order(),
    {
        self.graph_input_values = inputs;
    }

    /// Sets the graph-level output values.
    pub(crate) fn set_graph_outputs(&mut self, outputs: Vec<ValueId>)
        ensures
            final(self).output_values() == outputs@,
            final(self).input_values() == old(self).input_values(),
            final(self).node_arena() == old(self).node_arena(),
            final(self).value_arena() == old(self).value_arena(),
            final(self).producers() == old(self).producers(),
            final(self).consumer_lists() == old(self).consumer_lists(),
            final(self).cached_order() == old(self).cached_order(),
    {
        self.graph_output_values = outputs;
    }

    /// Adds a value (tensor) to the graph.
    pub fn add_value(&mut self, tensor: Tensor) -> (id: ValueId)
        requires
            old(self).wf(),
            old(self).value_arena().has_room(),
        ensures
            final(self).wf(),
            id.0 as int == old(self).value_arena().next_index(),
            !old(self).value_map().contains_key(id.0),
            final(self).value_map() == old(self).value_map().insert(id.0, tensor),
            final(self).value_arena().slots().len() == old(self).value_arena().slots().len() + (if old(self).value_arena().free_stack().len() > 0 {
                0int
            } else {
                1int
            }),
            final(self).value_arena().free_stack() == (if old(self).value_arena().free_stack().len() > 0 {
                old(self).value_arena().free_stack().drop_last()
            } else {
                old(self).value_arena().free_stack()
            }),
            final(self).node_arena() == old(self).node_arena(),
            final(self).producers() == old(self).producers(),
            final(self).consumer_lists() == old(self).consumer_lists(),
            final(self).input_values() == old(self).input_values(),
            final(self).output_values() == old(self).output_values(),
            final(self).cached_order() == old(self).cached_order(),
    {
        self.values.allocate(tensor)
    }

    /// Adds a node and registers it as the producer of its outputs and a
    /// consumer of its inputs; the cached topological order is dropped.
    pub fn add_node(&mut self, node: Node) -> (id: NodeId)
        requires
            old(self).wf(),
            old(self).node_arena().has_room(),
        ensures
            final(self).wf(),
            id.0 as int == old(self).node_arena().next_index(),
            !old(self).node_map().contains_key(id.0),
            final(self).node_map() == old(self).node_map().insert(id.0, node),
            final(self).node_arena().slots().len() == old(self).node_arena().slots().len() + (if old(self).node_arena().free_stack().len() > 0 {
                0int
            } else {
                1int
            }),
            final(self).node_arena().free_stack() == (if old(self).node_arena().free_stack().len() > 0 {
                old(self).node_arena().free_stack().drop_last()
            } else {
                old(self).node_arena().free_stack()
            }),
            final(self).producers() == register_producers(old(self).producers(), node.outputs@, id),
            final(self).consumer_lists() == register_consumers(
                old(self).consumer_lists(),
                node.inputs@,
                id,
            ),
            final(self).same_values_and_io(old(self)),
            final(self).cached_order() is None,
    {
        let ghost old_nodes = self.node_map();
        let node_id = self.nodes.allocate(node);
        let ghost new_nodes = self.node_map();
        let ghost new_arena = self.node_arena();
        let n = self.nodes.get(node_id).unwrap();
        let mut i: usize = 0;
        while i < n.outputs.len()
            invariant
                n == new_nodes[node_id.0],
                new_nodes == self.node_map(),
                new_arena == self.node_arena(),
                new_nodes == old_nodes.insert(node_id.0, node),
                !old_nodes.contains_key(node_id.0),
                self.node_arena().wf(),
                self.value_arena() == old(self).value_arena(),
                self.input_values() == old(self).input_values(),
                self.output_values() == old(self).output_values(),
                self.consumer_lists() == old(self).consumer_lists(),
                consumers_consistent(old_nodes, old(self).consumer_lists()),
                i <= n.outputs@.len(),
                self.producers() == register_producers(
                    old(self).producers(),
                    n.outputs@.take(i as int),
                    node_id,
                ),
                producers_consistent(self.node_map(), self.producers()),
            decreases n.outputs@.len() - i,
        {
            let v = n.outputs[i];
            self.value_producer.insert(v.0, node_id);
            proof {
                assert(n.outputs@.take(i + 1).drop_last() =~= n.outputs@.take(i as int));
                assert(n.outputs@.take(i + 1).last() == v);
                assert forall|w: u32| #[trigger] self.producers().contains_key(w) implies {
                    &&& self.node_map().contains_key(self.producers()[w].0)
                    &&& self.node_map()[self.producers()[w].0].outputs@.contains(ValueId(w))
                } by {
                    if w == v.0 {
                        assert(n.outputs@[i as int] == ValueId(w));
                    }
                }
            }
            i = i + 1;
        }
        proof {
            assert(n.outputs@.take(n.outputs@.len() as int) =~= n.outputs@);
            assert(n.inputs@.take(0) =~= Seq::<ValueId>::empty());
            assert forall|w: u32| #[trigger] self.consumer_lists().contains_key(w) implies consumers_consistent_at(self.node_map(), self.consumer_lists(), w) by {
                assert(consumers_consistent_at(old_nodes, self.consumer_lists(), w));
            }
        }
        let mut j: usize = 0;
        while j < n.inputs.len()
            invariant
                n == new_nodes[node_id.0],
                new_nodes == self.node_map(),
                new_arena == self.node_arena(),
                new_nodes == old_nodes.insert(node_id.0, node),
                self.node_arena().wf(),
                self.value_arena() == old(self).value_arena(),
                self.input_values() == old(self).input_values(),
                self.output_values() == old(self).output_values(),
                self.producers() == register_producers(old(self).producers(), node.outputs@, node_id),
                producers_consistent(self.node_map(), self.producers()),
                j <= n.inputs@.len(),
                self.consumer_lists() == register_consumers(
                    old(self).consumer_lists(),
                    n.inputs@.take(j as int),
                    node_id,
                ),
                consumers_consistent(self.node_map(), self.consumer_lists()),
            decreases n.inputs@.len() - j,
        {
            let v = n.inputs[j];
            let ghost before = self.consumer_lists();
            let mut list: Vec<NodeId> = match self.value_consumers.remove(&v.0) {
                Some(l) => l,
                None => Vec::new(),
            };
            proof {
                assert(list@ == list_or_empty(before, v.0));
            }
            list.push(node_id);
            self.value_consumers.insert(v.0, list);
            proof {
                assert(n.inputs@.take(j + 1).drop_last() =~= n.inputs@.take(j as int));
                assert(n.inputs@.take(j + 1).last() == v);
                assert(self.consumer_lists() =~= before.insert(v.0, list_or_empty(before, v.0).push(node_id)));
                assert forall|w: u32| #[trigger] self.consumer_lists().contains_key(w) implies consumers_consistent_at(self.node_map(), self.consumer_lists(), w) by {
                    if w == v.0 {
                        assert(n.inputs@[j as int] == ValueId(w));
                        assert forall|k: int| 0 <= k < self.consumer_lists()[w].len() implies {
                            &&& self.node_map().contains_key(#[trigger] self.consumer_lists()[w][k].0)
                            &&& self.node_map()[self.consumer_lists()[w][k].0].inputs@.contains(ValueId(w))
                        } by {
                            if k < list_or_empty(before, w).len() {
                                assert(before.contains_key(w));
                                assert(consumers_consistent_at(self.node_map(), before, w));
                                assert(self.consumer_lists()[w][k] == before[w][k]);
                            }
                        }
                    } else {
                        assert(before.contains_key(w));
                        assert(consumers_consistent_at(self.node_map(), before, w));
                    }
                }
            }
            j = j + 1;
        }
        proof {
            assert(n.inputs@.take(n.inputs@.len() as int) =~= n.inputs@);
        }
        self.topo_cache = None;
        node_id
    }

    /// Removes a node, if it is in the graph, together with its producer and
    /// consumer registrations; the cached topological order is dropped.
    pub fn remove_node(&mut self, node: NodeId)
        requires
            old(self).wf(),
        ensures
            final(self).wf(),
            final(self).same_values_and_io(old(self)),
            final(self).node_map() == old(self).node_map().remove(node.0),
            old(self).node_map().contains_key(node.0) ==> {
                let removed = old(self).node_map()[node.0];
                &&& final(self).producers() == unregister_producers(
                    old(self).producers(),
                    removed.outputs@,
                )
                &&& final(self).consumer_lists() == unregister_consumers(
                    old(self).consumer_lists(),
                    removed.inputs@,
                    node,
                )
                &&& final(self).cached_order() is None
                &&& final(self).node_arena().slots() == old(self).node_arena().slots().update(
                    node.0 as int,
                    None,
                )
                &&& final(self).node_arena().free_stack() == old(
                    self,
                ).node_arena().free_stack().push(node.0)
            },
            !old(self).node_map().contains_key(node.0) ==> {
                &&& final(self).node_arena().slots() == old(self).node_arena().slots()
                &&& final(self).node_arena().free_stack() == old(self).node_arena().free_stack()
                &&& final(self).producers() == old(self).producers()
                &&& final(self).consumer_lists() == old(self).consumer_lists()
                &&& final(self).cached_order() == old(self).cached_order()
            },
    {
        let ghost old_nodes = self.node_map();
        let ghost old_arena = self.node_arena();
        match self.nodes.free(node) {
            Some(removed) => {
                let ghost new_nodes = self.node_map();
                let ghost new_arena = self.node_arena();
                proof {
                    assert(removed == old_nodes[node.0]);
                }
                let mut i: usize = 0;
                while i < removed.outputs.len()
                    invariant
                        removed == old_nodes[node.0],
                        old_nodes.contains_key(node.0),
                        new_nodes == old_nodes.remove(node.0),
                        new_arena == self.node_arena(),
                        self.value_arena() == old(self).value_arena(),
                        self.input_values() == old(self).input_values(),
                        self.output_values() == old(self).output_values(),
                        self.consumer_lists() == old(self).consumer_lists(),
                        i <= removed.outputs@.len(),
                        self.producers() == unregister_producers(
                            old(self).producers(),
                            removed.outputs@.take(i as int),
                        ),
                    decreases removed.outputs@.len() - i,
                {
                    let v = removed.outputs[i];
                    self.value_producer.remove(&v.0);
                    proof {
                        assert(removed.outputs@.take(i + 1).drop_last() =~= removed.outputs@.take(i as int));
                    }
                    i = i + 1;
                }
                proof {
                    assert(removed.outputs@.take(removed.outputs@.len() as int) =~= removed.outputs@);
                    assert(removed.inputs@.take(0) =~= Seq::<ValueId>::empty());
                }
                let mut j: usize = 0;
                while j < removed.inputs.len()
                    invariant
                        removed == old_nodes[node.0],
                        new_arena == self.node_arena(),
                        self.value_arena() == old(self).value_arena(),
                        self.input_values() == old(self).input_values(),
                        self.output_values() == old(self).output_values(),
                        self.producers() == unregister_producers(old(self).producers(), removed.outputs@),
                        j <= removed.inputs@.len(),
                        self.consumer_lists() == unregister_consumers(
                            old(self).consumer_lists(),
                            removed.inputs@.take(j as int),
                            node,
                        ),
                    decreases removed.inputs@.len() - j,
                {
                    let v = removed.inputs[j];
                    let ghost before = self.consumer_lists();
                    match self.value_consumers.remove(&v.0) {
                        Some(list) => {
                            let kept = without_node(&list, node);
                            if kept.len() > 0 {
                                self.value_consumers.insert(v.0, kept);
                            }
                            proof {
                                assert(before.contains_key(v.0));
                                assert(before[v.0] == list@);
                            }
                        },
                        None => {},
                    }
                    proof {
                        assert(removed.inputs@.take(j + 1).drop_last() =~= removed.inputs@.take(j as int));
                        assert(removed.inputs@.take(j + 1).last() == v);
                        assert(self.consumer_lists() =~= drop_consumer(before, v.0, node));
                    }
                    j = j + 1;
                }
                proof {
                    assert(removed.inputs@.take(removed.inputs@.len() as int) =~= removed.inputs@);
                    lemma_unregister_producers(old(self).producers(), removed.outputs@);
                    lemma_unregister_consumers(old(self).consumer_lists(), removed.inputs@, node);
                    let prod = self.producers();
                    let cons = self.consumer_lists();
                    assert forall|w: u32| #[trigger] prod.contains_key(w) implies {
                        &&& self.node_map().contains_key(prod[w].0)
                        &&& self.node_map()[prod[w].0].outputs@.contains(ValueId(w))
                    } by {
                        assert(old(self).producers().contains_key(w));
                        if prod[w] == node {
                            assert(removed.outputs@.contains(ValueId(w)));
                        }
                    }
                    assert forall|w: u32| #[trigger] cons.contains_key(w) implies consumers_consistent_at(self.node_map(), cons, w) by {
                        let oc = old(self).consumer_lists();
                        assert(oc.contains_key(w));
                        assert(consumers_consistent_at(old_nodes, oc, w));
                        if removed.inputs@.contains(ValueId(w)) {
                            assert forall|k: int| 0 <= k < cons[w].len() implies {
                                &&& self.node_map().contains_key(#[trigger] cons[w][k].0)
                                &&& self.node_map()[cons[w][k].0].inputs@.contains(ValueId(w))
                            } by {
                                oc[w].lemma_filter_contains_rev(other_than(node), cons[w][k]);
                                assert(cons[w].contains(cons[w][k]));
                                oc[w].lemma_filter_pred(other_than(node), k);
                                let kk = choose|kk: int| 0 <= kk < oc[w].len() && oc[w][kk] == cons[w][k];
                                assert(oc[w][kk] == cons[w][k]);
                            }
                        } else {
                            assert forall|k: int| 0 <= k < cons[w].len() implies {
                                &&& self.node_map().contains_key(#[trigger] cons[w][k].0)
                                &&& self.node_map()[cons[w][k].0].inputs@.contains(ValueId(w))
                            } by {
                                assert(oc[w][k] == cons[w][k]);
                                if cons[w][k] == node {
                                    assert(removed.inputs@.contains(ValueId(w)));
                                }
                            }
                        }
                    }
                }
                self.topo_cache = None;
            },
            None => {},
        }
    }

    /// Removes a value, if it is in the graph, together with its producer and
    /// consumer registrations; nodes that mention it keep doing so. The
    /// cached topological order is dropped.
    pub fn remove_value(&mut self, value: ValueId)
        requires
            old(self).wf(),
        ensures
            final(self).wf(),
            final(self).value_map() == old(self).value_map().remove(value.0),
            final(self).node_arena() == old(self).node_arena(),
            final(self).producers() == old(self).producers().remove(value.0),
            final(self).consumer_lists() == old(self).consumer_lists().remove(value.0),
            final(self).input_values() == old(self).input_values(),
            final(self).output_values() == old(self).output_values(),
            final(self).cached_order() is None,
            old(self).value_map().contains_key(value.0) ==> final(self).value_arena().slots()
                == old(self).value_arena().slots().update(value.0 as int, None)
                && final(self).value_arena().free_stack() == old(self).value_arena().free_stack().push(value.0),
            !old(self).value_map().contains_key(value.0) ==> final(self).value_arena().slots()
                == old(self).value_arena().slots()
                && final(self).value_arena().free_stack() == old(self).value_arena().free_stack(),
    {
        let _ = self.values.free(value);
        self.value_producer.remove(&value.0);
        self.value_consumers.remove(&value.0);
        proof {
            assert(self.consumer_lists() =~= old(self).consumer_lists().remove(value.0));
            assert forall|w: u32| #[trigger] self.consumer_lists().contains_key(w) implies consumers_consistent_at(self.node_map(), self.consumer_lists(), w) by {
                assert(consumers_consistent_at(self.node_map(), old(self).consumer_lists(), w));
            }
        }
        self.topo_cache = None;
    }

    /// Replaces node `node_id` by a constant: the node goes away with its
    /// producer and consumer registrations, and its single output value
    /// becomes `constant`, produced by no node; nodes that read the value
    /// keep reading it. Unless the node is live with exactly one output that
    /// is a live value, it fails and changes nothing.
    pub fn replace_with_constant(&mut self, node_id: NodeId, constant: Tensor) -> (r: Result<(), OnnxOptError>)
        requires
            old(self).wf(),
        ensures
            final(self).wf(),
            r is Ok <==> constant_replaceable(*old(self), node_id.0),
            r matches Err(e) ==> e@ == ErrorView::InvalidModel(not_replaceable_text()) && *final(self) == *old(self),
            r is Ok ==> {
                let n = old(self).node_map()[node_id.0];
                let out = n.outputs@[0];
                &&& final(self).node_map() == old(self).node_map().remove(node_id.0)
                &&& final(self).value_map() == old(self).value_map().insert(out.0, constant)
                &&& final(self).producers() == old(self).producers().remove(out.0)
                &&& final(self).consumer_lists() == unregister_consumers(old(self).consumer_lists(), n.inputs@, node_id)
                &&& final(self).input_values() == old(self).input_values()
                &&& final(self).output_values() == old(self).output_values()
                &&& final(self).cached_order() is None
            },
    {
        let out = match self.node(node_id) {
            Some(node) => {
                if node.outputs.len() != 1 {
                    return Err(OnnxOptError::InvalidModel(
                        "Node cannot be replaced by a constant: it needs exactly one output value".to_string(),
                    ));
                }
                node.outputs[0]
            },
            None => {
                return Err(OnnxOptError::InvalidModel(
                    "Node cannot be replaced by a constant: it needs exactly one output value".to_string(),
                ));
            },
        };
        if self.tensor(out).is_none() {
            return Err(OnnxOptError::InvalidModel(
                "Node cannot be replaced by a constant: it needs exactly one output value".to_string(),
            ));
        }
        let ghost removed = self.node_map()[node_id.0];
        self.remove_node(node_id);
        proof {
            assert(removed.outputs@.drop_last() =~= Seq::<ValueId>::empty());
            assert(removed.outputs@.last() == out);
            assert(unregister_producers(old(self).producers(), Seq::<ValueId>::empty()) == old(self).producers());
            assert(unregister_producers(old(self).producers(), removed.outputs@) == old(self).producers().remove(out.0));
        }
        let ghost before = self.value_arena();
        match self.values.get_mut(out) {
            Some(t) => {
                *t = constant;
            },
            None => {},
        }
        proof {
            Arena::<Tensor, ValueId>::lemma_wf_after_overwrite(before, self.value_arena(), out.0, constant);
        }
        Ok(())
    }

    /// Replaces every use of `from` by `to`: in the inputs of every node and
    /// among the graph outputs. The consumers registered for `from` move to
    /// `to`. The cached topological order is dropped.
    pub fn replace_value(&mut self, from: ValueId, to: ValueId)
        requires
            old(self).wf(),
        ensures
            final(self).wf(),
            from == to ==> *final(self) == *old(self),
            from != to ==> {
                &&& final(self).value_arena() == old(self).value_arena()
                &&& final(self).input_values() == old(self).input_values()
                &&& final(self).output_values() == replace_id(old(self).output_values(), from, to)
                &&& final(self).producers() == old(self).producers()
                &&& final(self).consumer_lists() == (if old(self).consumer_lists().contains_key(
                    from.0,
                ) {
                    old(self).consumer_lists().remove(from.0).insert(
                        to.0,
                        list_or_empty(old(self).consumer_lists(), to.0) + old(
                            self,
                        ).consumer_lists()[from.0],
                    )
                } else {
                    old(self).consumer_lists()
                })
                &&& final(self).node_map().dom() == old(self).node_map().dom()
                &&& forall|k: u32|
                    #[trigger] old(self).node_map().contains_key(k) ==> inputs_replaced(
                        old(self).node_map()[k],
                        final(self).node_map()[k],
                        from,
                        to,
                    )
                &&& final(self).node_arena().free_stack() == old(self).node_arena().free_stack()
                &&& final(self).node_arena().slots().len() == old(self).node_arena().slots().len()
                &&& final(self).cached_order() is None
            },
    {
        if from == to {
            return;
        }
        let ghost old_nodes = self.node_map();
        let ids = self.node_ids();
        let mut i: usize = 0;
        while i < ids.len()
            invariant
                from != to,
                self.node_arena().wf(),
                self.node_arena().free_stack() == old(self).node_arena().free_stack(),
                self.node_arena().slots().len() == old(self).node_arena().slots().len(),
                self.node_map().dom() == old_nodes.dom(),
                old_nodes == old(self).node_map(),
                i <= ids@.len(),
                forall|a: int, b: int| 0 <= a < b < ids@.len() ==> ids@[a].0 < ids@[b].0,
                forall|k: int| 0 <= k < ids@.len() ==> old_nodes.contains_key(#[trigger] ids@[k].0),
                forall|x: u32| old_nodes.contains_key(x) ==> ids@.contains(NodeId(x)),
                forall|k: int| 0 <= k < i ==> inputs_replaced(old_nodes[#[trigger] ids@[k].0], self.node_map()[ids@[k].0], from, to),
                forall|k: int| i <= k < ids@.len() ==> old_nodes[#[trigger] ids@[k].0] == self.node_map()[ids@[k].0],
                self.value_arena() == old(self).value_arena(),
                self.input_values() == old(self).input_values(),
                self.output_values() == old(self).output_values(),
                self.producers() == old(self).producers(),
                self.consumer_lists() == old(self).consumer_lists(),
            decreases ids@.len() - i,
        {
            let id = ids[i];
            let ghost before = self.node_arena();
            match self.nodes.get_mut(id) {
                Some(n) => {
                    replace_in_place(&mut n.inputs, from, to);
                },
                None => {},
            }
            proof {
                assert(before@.contains_key(id.0));
                let new_node = self.node_arena().slots()[id.0 as int]->Some_0;
                Arena::<Node, NodeId>::lemma_wf_after_overwrite(before, self.node_arena(), id.0, new_node);
                assert forall|k: int| 0 <= k < i + 1 implies inputs_replaced(old_nodes[#[trigger] ids@[k].0], self.node_map()[ids@[k].0], from, to) by {
                    if k < i {
                        assert(ids@[k].0 != id.0);
                    }
                }
                assert forall|k: int| i + 1 <= k < ids@.len() implies old_nodes[#[trigger] ids@[k].0] == self.node_map()[ids@[k].0] by {
                    assert(ids@[k].0 != id.0);
                }
            }
            i = i + 1;
        }
        proof {
            assert forall|k: u32| #[trigger] old_nodes.contains_key(k) implies inputs_replaced(old_nodes[k], self.node_map()[k], from, to) by {
                assert(ids@.contains(NodeId(k)));
                let j = choose|j: int| 0 <= j < ids@.len() && ids@[j] == NodeId(k);
                assert(inputs_replaced(old_nodes[ids@[j].0], self.node_map()[ids@[j].0], from, to));
            }
        }
        replace_in_place(&mut self.graph_output_values, from, to);
        let ghost before_cons = self.consumer_lists();
        match self.value_consumers.remove(&from.0) {
            Some(mut moved) => {
                let mut list: Vec<NodeId> = match self.value_consumers.remove(&to.0) {
                    Some(l) => l,
                    None => Vec::new(),
                };
                proof {
                    assert(list@ == list_or_empty(before_cons, to.0));
                    assert(moved@ == before_cons[from.0]);
                }
                list.append(&mut moved);
                self.value_consumers.insert(to.0, list);
                proof {
                    assert(self.consumer_lists() =~= before_cons.remove(from.0).insert(to.0, list_or_empty(before_cons, to.0) + before_cons[from.0]));
                }
            },
            None => {},
        }
        proof {
            let nm = self.node_map();
            let cons = self.consumer_lists();
            assert forall|w: u32| #[trigger] self.producers().contains_key(w) implies {
                &&& nm.contains_key(self.producers()[w].0)
                &&& nm[self.producers()[w].0].outputs@.contains(ValueId(w))
            } by {
                assert(old_nodes.contains_key(self.producers()[w].0));
                assert(inputs_replaced(old_nodes[self.producers()[w].0], nm[self.producers()[w].0], from, to));
            }
            assert forall|w: u32| #[trigger] cons.contains_key(w) implies consumers_consistent_at(nm, cons, w) by {
                assert forall|k: int| 0 <= k < cons[w].len() implies {
                    &&& nm.contains_key(#[trigger] cons[w][k].0)
                    &&& nm[cons[w][k].0].inputs@.contains(ValueId(w))
                } by {
                    let c = cons[w][k];
                    if w == to.0 && before_cons.contains_key(from.0) {
                        let first = list_or_empty(before_cons, to.0);
                        if k < first.len() {
                            assert(c == first[k]);
                            assert(before_cons.contains_key(to.0));
                            assert(consumers_consistent_at(old_nodes, before_cons, to.0));
                            assert(old_nodes[c.0].inputs@.contains(to));
                        } else {
                            assert(c == before_cons[from.0][k - first.len()]);
                            assert(consumers_consistent_at(old_nodes, before_cons, from.0));
                            assert(old_nodes[c.0].inputs@.contains(from));
                        }
                        assert(inputs_replaced(old_nodes[c.0], nm[c.0], from, to));
                        lemma_replace_id_contains(old_nodes[c.0].inputs@, from, to, to);
                    } else {
                        assert(before_cons.contains_key(w));
                        assert(w != from.0);
                        assert(consumers_consistent_at(old_nodes, before_cons, w));
                        assert(cons[w] == before_cons[w]);
                        assert(old_nodes[c.0].inputs@.contains(ValueId(w)));
                        assert(inputs_replaced(old_nodes[c.0], nm[c.0], from, to));
                        lemma_replace_id_contains(old_nodes[c.0].inputs@, from, to, ValueId(w));
                    }
                }
            }
        }
        self.topo_cache = None;
    }

    /// Identifiers of the live nodes, in increasing index order.
    pub fn node_ids(&self) -> (ids: Vec<NodeId>)
        requires
            self.wf(),
        ensures
            forall|a: int, b: int| 0 <= a < b < ids@.len() ==> ids@[a].0 < ids@[b].0,
            forall|k: int| 0 <= k < ids@.len() ==> self.node_map().contains_key(#[trigger] ids@[k].0),
            forall|x: u32| self.node_map().contains_key(x) ==> ids@.contains(NodeId(x)),
            ids@.len() <= self.node_arena().slots().len(),
    {
        let mut it = self.nodes.iter();
        let mut ids: Vec<NodeId> = Vec::new();
        loop
            invariant
                self.wf(),
                it.walked() == self.node_arena().slots(),
                0 <= it.position() <= it.walked().len(),
                forall|a: int, b: int| 0 <= a < b < ids@.len() ==> ids@[a].0 < ids@[b].0,
                forall|k: int| 0 <= k < ids@.len() ==> (#[trigger] ids@[k].0 as int) < it.position(),
                forall|k: int| 0 <= k < ids@.len() ==> k <= (#[trigger] ids@[k].0 as int),
                forall|k: int| 0 <= k < ids@.len() ==> self.node_map().contains_key(#[trigger] ids@[k].0),
                forall|x: u32| (x as int) < it.position() && self.node_map().contains_key(x) ==> ids@.contains(NodeId(x)),
            ensures
                forall|a: int, b: int| 0 <= a < b < ids@.len() ==> ids@[a].0 < ids@[b].0,
                forall|k: int| 0 <= k < ids@.len() ==> self.node_map().contains_key(#[trigger] ids@[k].0),
                ids@.len() <= self.node_arena().slots().len(),
                forall|x: u32| self.node_map().contains_key(x) ==> ids@.contains(NodeId(x)),
            decreases it.walked().len() - it.position(),
        {
            let ghost before = ids@;
            let ghost pos = it.position();
            let r = it.next();
            match r {
                Some((i, _)) => {
                    assert(i as int == it.position() - 1);
                    assert(pos <= i);
                    proof {
                        if before.len() > 0 {
                            let last: int = before.len() - 1;
                            assert(last <= before[last].0 as int);
                            assert((before[last].0 as int) < pos);
                        }
                    }
                    ids.push(NodeId(i));
                    proof {
                        assert forall|x: u32| (x as int) < it.position() && self.node_map().contains_key(x) implies ids@.contains(NodeId(x)) by {
                            if x == i {
                                assert(ids@[ids@.len() - 1] == NodeId(x));
                            } else {
                                assert(before.contains(NodeId(x)));
                                let k = choose|k: int| 0 <= k < before.len() && before[k] == NodeId(x);
                                assert(ids@[k] == NodeId(x));
                            }
                        }
                    }
                },
                None => {
                    assert(it.position() == it.walked().len());
                    proof {
                    if ids@.len() > 0 {
                        let last: int = ids@.len() - 1;
                        assert(last <= ids@[last].0 as int);
                        assert((ids@[last].0 as int) < it.position());
                    }
                    }
                    break;
                },
            }
        }
        ids
    }

    /// Number of live nodes.
    pub fn node_count(&self) -> (n: usize)
        requires
            self.wf(),
        ensures
            n == crate::utils::arena::count_occupied(self.node_arena().slots()),
    {
        self.nodes.len()
    }

    /// Number of node slots, occupied or freed: one more than the highest
    /// node index handed out so far.
    pub fn node_slot_count(&self) -> (n: usize)
        ensures
            n == self.node_arena().slots().len(),
    {
        self.nodes.slot_count()
    }

    /// Number of live values.
    pub fn value_count(&self) -> (n: usize)
        requires
            self.wf(),
        ensures
            n == crate::utils::arena::count_occupied(self.value_arena().slots()),
    {
        self.values.len()
    }

    /// Invalidates the cached topological order.
    pub fn invalidate_topology(&mut self)
        ensures
            final(self).cached_order() is None,
            final(self).node_arena() == old(self).node_arena(),
            final(self).value_arena() == old(self).value_arena(),
            final(self).producers() == old(self).producers(),
            final(self).consumer_lists() == old(self).consumer_lists(),
            final(self).input_values() == old(self).input_values(),
            final(self).output_values() == old(self).output_values(),
    {
        self.topo_cache = None;
    }
}

} // verus!

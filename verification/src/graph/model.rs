//! Building a graph from an ONNX model description.

use vstd::prelude::*;
use crate::graph::convert::{attr_views, attrs_outcome, kind_named, tensor_outcome, value_info_tensor};
use crate::graph::objects::{DataType, Node, NodeId, Tensor, ValueId};
use crate::graph::proto::{GraphProto, ModelProto, NodeProto, TensorProto};
use crate::graph::store::{Graph, list_or_empty, register_consumers, register_producers};
use crate::utils::error::{ErrorView, OnnxOptError};
use crate::utils::name_index::NameIndex;

verus! {

/// The text of an optional name: the name, or the empty text.
pub open spec fn name_text(name: Option<Seq<char>>) -> Seq<char> {
    match name {
        Some(s) => s,
        None => Seq::empty(),
    }
}

/// The name under which a tensor is known.
pub open spec fn value_name(t: Tensor) -> Seq<char> {
    name_text(t@.name)
}

/// The texts of a list of strings.
pub open spec fn texts_of(v: Vec<String>) -> Seq<Seq<char>> {
    v@.map_values(|s: String| s@)
}

/// Every name in `m` is the name of the live value it maps to.
pub open spec fn names_match(g: Graph, m: Map<Seq<char>, ValueId>) -> bool {
    forall|key: Seq<char>|
        #[trigger] m.contains_key(key) ==> g.value_map().contains_key(m[key].0) && value_name(
            g.value_map()[m[key].0],
        ) == key
}

/// `ids` are the values that `m` gives the names, position by position.
pub open spec fn resolved(ids: Seq<ValueId>, names: Seq<Seq<char>>, m: Map<Seq<char>, ValueId>) -> bool {
    &&& ids.len() == names.len()
    &&& forall|j: int| 0 <= j < names.len() ==> m.contains_key(#[trigger] names[j]) && ids[j] == m[names[j]]
}

/// `m2` keeps every entry of `m1`.
pub open spec fn extends(m2: Map<Seq<char>, ValueId>, m1: Map<Seq<char>, ValueId>) -> bool {
    forall|key: Seq<char>| #[trigger] m1.contains_key(key) ==> m2.contains_key(key) && m2[key] == m1[key]
}

/// Resolution survives extending the map.
proof fn lemma_resolved_extends(ids: Seq<ValueId>, names: Seq<Seq<char>>, m1: Map<Seq<char>, ValueId>, m2: Map<Seq<char>, ValueId>)
    requires
        resolved(ids, names, m1),
        extends(m2, m1),
    ensures
        resolved(ids, names, m2),
{
    assert forall|j: int| 0 <= j < names.len() implies m2.contains_key(#[trigger] names[j]) && ids[j] == m2[names[j]] by {
        assert(m1.contains_key(names[j]));
    }
}

/// What resolving names only adds to a graph: new values, nothing else.
pub open spec fn values_added(g2: Graph, g1: Graph) -> bool {
    &&& g2.wf()
    &&& g2.node_arena() == g1.node_arena()
    &&& g2.producers() == g1.producers()
    &&& g2.consumer_lists() == g1.consumer_lists()
    &&& g2.input_values() == g1.input_values()
    &&& g2.output_values() == g1.output_values()
    &&& g2.value_arena().free_stack().len() == 0
    &&& forall|k: u32| #[trigger] g1.value_map().contains_key(k) ==> g2.value_map().contains_key(k) && g2.value_map()[k] == g1.value_map()[k]
}

/// A placeholder value: a 32-bit float tensor with no shape and no data.
pub open spec fn placeholder(t: Tensor) -> bool {
    &&& t.shape is None
    &&& t.dtype == DataType::Float32
    &&& t.data is None
}

/// Every name that `m2` knows and `m1` does not refers to a placeholder.
pub open spec fn new_names_placeholders(g: Graph, m2: Map<Seq<char>, ValueId>, m1: Map<Seq<char>, ValueId>) -> bool {
    forall|key: Seq<char>|
        #[trigger] m2.contains_key(key) && !m1.contains_key(key) ==> placeholder(g.value_map()[m2[key].0])
}

/// The value each name refers to: the one already known by that name, or
/// a new 32-bit float placeholder carrying the name.
fn resolve_names(graph: &mut Graph, names: &mut NameIndex<ValueId>, list: &Vec<String>) -> (ids: Vec<ValueId>)
    requires
        old(graph).wf(),
        old(graph).value_arena().free_stack().len() == 0,
        old(graph).value_arena().slots().len() + list@.len() <= u32::MAX + 1,
        names_match(*old(graph), old(names)@),
    ensures
        values_added(*final(graph), *old(graph)),
        final(graph).value_arena().slots().len() <= old(graph).value_arena().slots().len() + list@.len(),
        names_match(*final(graph), final(names)@),
        extends(final(names)@, old(names)@),
        resolved(ids@, texts_of(*list), final(names)@),
        new_names_placeholders(*final(graph), final(names)@, old(names)@),
{
    let mut ids: Vec<ValueId> = Vec::new();
    let mut j: usize = 0;
    while j < list.len()
        invariant
            j <= list@.len(),
            values_added(*graph, *old(graph)),
            graph.value_arena().slots().len() <= old(graph).value_arena().slots().len() + j,
            old(graph).value_arena().slots().len() + list@.len() <= u32::MAX + 1,
            names_match(*graph, names@),
            extends(names@, old(names)@),
            new_names_placeholders(*graph, names@, old(names)@),
            ids@.len() == j,
            forall|i: int| 0 <= i < j ==> names@.contains_key(#[trigger] texts_of(*list)[i]) && ids@[i] == names@[texts_of(*list)[i]],
        decreases list@.len() - j,
    {
        let name = &list[j];
        let ghost before_names = names@;
        let ghost before_graph = *graph;
        let id = match names.get(name.as_str()) {
            Some(v) => *v,
            None => {
                let tensor = Tensor::new(DataType::Float32).with_name(name.clone());
                let v = graph.add_value(tensor);
                names.insert(name.clone(), v);
                proof {
                    assert forall|key: Seq<char>| #[trigger] names@.contains_key(key) implies graph.value_map().contains_key(names@[key].0) && value_name(graph.value_map()[names@[key].0]) == key by {
                        if key != name@ {
                            assert(before_names.contains_key(key));
                        }
                    }
                    assert forall|k: u32| #[trigger] old(graph).value_map().contains_key(k) implies graph.value_map().contains_key(k) && graph.value_map()[k] == old(graph).value_map()[k] by {
                        assert(before_graph.value_map().contains_key(k));
                    }
                    assert forall|key: Seq<char>| #[trigger] names@.contains_key(key) && !old(names)@.contains_key(key) implies placeholder(graph.value_map()[names@[key].0]) by {
                        if key != name@ {
                            assert(before_names.contains_key(key));
                            assert(before_graph.value_map().contains_key(before_names[key].0));
                        }
                    }
                }
                v
            },
        };
        ids.push(id);
        proof {
            assert(texts_of(*list)[j as int] == name@);
            assert forall|key: Seq<char>| #[trigger] old(names)@.contains_key(key) implies names@.contains_key(key) && names@[key] == old(names)@[key] by {
                assert(before_names.contains_key(key));
            }
            assert forall|i: int| 0 <= i < j + 1 implies names@.contains_key(#[trigger] texts_of(*list)[i]) && ids@[i] == names@[texts_of(*list)[i]] by {
                if i < j {
                    assert(before_names.contains_key(texts_of(*list)[i]));
                }
            }
        }
        j = j + 1;
    }
    ids
}

/// `m` with each of `keys` mapped to the value at the same position of
/// `vals`, in order, so that a later key wins over an earlier equal one.
pub open spec fn insert_all(m: Map<Seq<char>, ValueId>, keys: Seq<Seq<char>>, vals: Seq<ValueId>) -> Map<Seq<char>, ValueId>
    decreases keys.len(),
{
    if keys.len() == 0 {
        m
    } else {
        insert_all(m, keys.drop_last(), vals.drop_last()).insert(keys.last(), vals[keys.len() - 1])
    }
}

/// The names under which initializers are known.
pub open spec fn initializer_names(ts: Seq<TensorProto>) -> Seq<Seq<char>> {
    ts.map_values(|t: TensorProto| name_text(crate::graph::objects::opt_text(t.name)))
}

/// The first `n` value indices, in order.
pub open spec fn first_ids(n: nat) -> Seq<ValueId> {
    Seq::new(n, |k: int| ValueId(k as u32))
}

/// The names under which value descriptions are known.
pub open spec fn info_names(vis: Seq<crate::graph::proto::ValueInfoProto>) -> Seq<Seq<char>> {
    vis.map_values(|vi: crate::graph::proto::ValueInfoProto| info_name(vi))
}

/// The error of the first tensor description that fails to convert.
pub open spec fn first_tensor_error(ts: Seq<TensorProto>) -> Option<ErrorView>
    decreases ts.len(),
{
    if ts.len() == 0 {
        None
    } else {
        match first_tensor_error(ts.drop_last()) {
            Some(e) => Some(e),
            None => match tensor_outcome(ts.last()) {
                Err(e) => Some(e),
                Ok(_) => None,
            },
        }
    }
}

/// The error a node description fails with, if it does.
pub open spec fn node_error(np: NodeProto) -> Option<ErrorView> {
    match np.op_type {
        None => Some(ErrorView::Conversion("Missing op_type in NodeProto"@)),
        Some(_) => match attrs_outcome(np.attribute@) {
            Err(e) => Some(e),
            Ok(_) => None,
        },
    }
}

/// The error of the first node description that fails to convert.
pub open spec fn first_node_error(ns: Seq<NodeProto>) -> Option<ErrorView>
    decreases ns.len(),
{
    if ns.len() == 0 {
        None
    } else {
        match first_node_error(ns.drop_last()) {
            Some(e) => Some(e),
            None => node_error(ns.last()),
        }
    }
}

/// The error building a graph fails with: the first initializer's that
/// fails, else the first node's that fails.
pub open spec fn graph_error(gp: GraphProto) -> Option<ErrorView> {
    match first_tensor_error(gp.initializer@) {
        Some(e) => Some(e),
        None => first_node_error(gp.node@),
    }
}

/// How many input and output names the node descriptions list.
pub open spec fn io_count(ns: Seq<NodeProto>) -> nat
    decreases ns.len(),
{
    if ns.len() == 0 {
        0
    } else {
        io_count(ns.drop_last()) + ns.last().input@.len() + ns.last().output@.len()
    }
}

/// How many values building the graph may create at most.
pub open spec fn value_demand(gp: GraphProto) -> nat {
    gp.initializer@.len() + gp.input@.len() + gp.output@.len() + gp.value_info@.len() + io_count(gp.node@)
}

/// Node `n` is what description `np` converts to, its inputs and outputs
/// being the values `m` gives their names.
pub open spec fn node_built(n: Node, np: NodeProto, m: Map<Seq<char>, ValueId>) -> bool {
    &&& opt_text_eq(n, np)
    &&& np.op_type matches Some(op) && kind_named(n.op_kind, op@)
    &&& attrs_outcome(np.attribute@) matches Ok(a) && attr_views(n.attributes) == a
    &&& resolved(n.inputs@, texts_of(np.input), m)
    &&& resolved(n.outputs@, texts_of(np.output), m)
}

/// The node carries the description's name.
pub open spec fn opt_text_eq(n: Node, np: NodeProto) -> bool {
    crate::graph::objects::opt_text(n.name) == crate::graph::objects::opt_text(np.name)
}

/// The values of a list are live and are the tensors that the value
/// descriptions give, position by position.
pub open spec fn described_values(g: Graph, ids: Seq<ValueId>, vis: Seq<crate::graph::proto::ValueInfoProto>) -> bool {
    &&& ids.len() == vis.len()
    &&& forall|k: int| 0 <= k < vis.len() ==> g.value_map().contains_key(#[trigger] ids[k].0) && g.value_map()[ids[k].0]@ == value_info_tensor(vis[k])
}

/// The initializers are the first values, in order.
pub open spec fn initializers_stored(g: Graph, ts: Seq<TensorProto>) -> bool {
    forall|k: int| 0 <= k < ts.len() ==> g.value_map().contains_key(k as u32) && tensor_outcome(#[trigger] ts[k]) == Ok::<crate::graph::objects::TensorView, ErrorView>(g.value_map()[k as u32]@)
}

/// The names that the graph's declarations give, each with its value: the
/// initializers, then the graph inputs, then the graph outputs, a later
/// declaration of a name winning over an earlier one.
pub open spec fn declared_names(g: Graph, gp: GraphProto) -> Map<Seq<char>, ValueId> {
    insert_all(
        insert_all(
            insert_all(Map::empty(), initializer_names(gp.initializer@), first_ids(gp.initializer@.len())),
            info_names(gp.input@),
            g.input_values(),
        ),
        info_names(gp.output@),
        g.output_values(),
    )
}

/// How the names of `m` resolve: a declared name to its declared value; any
/// other name that a value description gives to the tensor of the first
/// such description; any other name to a placeholder.
pub open spec fn names_resolve(g: Graph, gp: GraphProto, m: Map<Seq<char>, ValueId>) -> bool {
    &&& extends(m, declared_names(g, gp))
    &&& forall|key: Seq<char>|
        #[trigger] m.contains_key(key) && !declared_names(g, gp).contains_key(key) ==> {
            ||| exists|k: int|
                #[trigger] first_named(gp.value_info@, key, k) && g.value_map()[m[key].0]@ == value_info_tensor(gp.value_info@[k])
            ||| (forall|k: int| 0 <= k < gp.value_info@.len() ==> info_name(#[trigger] gp.value_info@[k]) != key)
                && placeholder(g.value_map()[m[key].0])
        }
}

/// What a successfully built graph holds: one node per node description,
/// numbered in order, each converted from its description, with the inputs
/// and outputs that one name map gives their names, every name in it being
/// that of its value; the initializers as the first values; and the graph's
/// inputs and outputs as described.
pub open spec fn graph_built(g: Graph, gp: GraphProto) -> bool {
    &&& g.wf()
    &&& forall|k: u32| g.node_map().contains_key(k) <==> (k as int) < gp.node@.len()
    &&& exists|m: Map<Seq<char>, ValueId>|
        names_match(g, m) && names_resolve(g, gp, m)
            && forall|k: int| 0 <= k < gp.node@.len() ==> node_built(g.node_map()[k as u32], #[trigger] gp.node@[k], m)
    &&& forall|k: u32| #[trigger] g.node_map().contains_key(k) ==> node_registered(g, k)
    &&& initializers_stored(g, gp.initializer@)
    &&& described_values(g, g.input_values(), gp.input@)
    &&& described_values(g, g.output_values(), gp.output@)
}

/// An error in a prefix of the tensor descriptions is the first error.
proof fn lemma_tensor_error_persists(ts: Seq<TensorProto>, n: int)
    requires
        0 <= n <= ts.len(),
        first_tensor_error(ts.take(n)) is Some,
    ensures
        first_tensor_error(ts) == first_tensor_error(ts.take(n)),
    decreases ts.len() - n,
{
    if n < ts.len() {
        assert(ts.take(n + 1).drop_last() =~= ts.take(n));
        lemma_tensor_error_persists(ts, n + 1);
    } else {
        assert(ts.take(n) =~= ts);
    }
}

/// An error in a prefix of the node descriptions is the first error.
proof fn lemma_node_error_persists(ns: Seq<NodeProto>, n: int)
    requires
        0 <= n <= ns.len(),
        first_node_error(ns.take(n)) is Some,
    ensures
        first_node_error(ns) == first_node_error(ns.take(n)),
    decreases ns.len() - n,
{
    if n < ns.len() {
        assert(ns.take(n + 1).drop_last() =~= ns.take(n));
        lemma_node_error_persists(ns, n + 1);
    } else {
        assert(ns.take(n) =~= ns);
    }
}

/// The counted names of a prefix are at most those of the whole.
proof fn lemma_io_count_prefix(ns: Seq<NodeProto>, n: int)
    requires
        0 <= n <= ns.len(),
    ensures
        io_count(ns.take(n)) <= io_count(ns),
    decreases ns.len() - n,
{
    if n < ns.len() {
        assert(ns.take(n + 1).drop_last() =~= ns.take(n));
        lemma_io_count_prefix(ns, n + 1);
    } else {
        assert(ns.take(n) =~= ns);
    }
}

/// The name of an optional name, or the empty text.
fn name_or_empty(name: &Option<String>) -> (s: String)
    ensures
        s@ == name_text(crate::graph::objects::opt_text(*name)),
{
    match name {
        Some(n) => n.clone(),
        None => String::new(),
    }
}

/// Adding one value known under `name`, as a new value, keeps every
/// name of the map that is not `name` matched, and matches `name`.
proof fn lemma_names_match_insert(g1: Graph, g2: Graph, m: Map<Seq<char>, ValueId>, name: Seq<char>, v: ValueId)
    requires
        names_match(g1, m),
        forall|k: u32| #[trigger] g1.value_map().contains_key(k) ==> g2.value_map().contains_key(k) && g2.value_map()[k] == g1.value_map()[k],
        g2.value_map().contains_key(v.0),
        value_name(g2.value_map()[v.0]) == name,
    ensures
        names_match(g2, m.insert(name, v)),
{
    assert forall|key: Seq<char>| #[trigger] m.insert(name, v).contains_key(key) implies g2.value_map().contains_key(m.insert(name, v)[key].0) && value_name(g2.value_map()[m.insert(name, v)[key].0]) == key by {
        if key != name {
            assert(m.contains_key(key));
            assert(g1.value_map().contains_key(m[key].0));
        }
    }
}

/// Stores the initializers as the first values, in order, each known by
/// its name; fails with the first initializer that does not convert.
fn add_initializers(graph: &mut Graph, names: &mut NameIndex<ValueId>, ts: &Vec<TensorProto>) -> (r: Result<(), OnnxOptError>)
    requires
        old(graph).wf(),
        old(graph).value_arena().free_stack().len() == 0,
        old(graph).value_arena().slots().len() == 0,
        ts@.len() <= u32::MAX + 1,
        names_match(*old(graph), old(names)@),
    ensures
        match first_tensor_error(ts@) {
            Some(e) => r matches Err(x) && x@ == e,
            None => r is Ok,
        },
        r is Ok ==> {
            &&& values_added(*final(graph), *old(graph))
            &&& final(graph).value_arena().slots().len() == ts@.len()
            &&& initializers_stored(*final(graph), ts@)
            &&& names_match(*final(graph), final(names)@)
            &&& final(names)@ == insert_all(old(names)@, initializer_names(ts@), first_ids(ts@.len()))
        },
{
    let mut k: usize = 0;
    while k < ts.len()
        invariant
            k <= ts@.len(),
            ts@.len() <= u32::MAX + 1,
            values_added(*graph, *old(graph)),
            graph.value_arena().slots().len() == k,
            first_tensor_error(ts@.take(k as int)) is None,
            initializers_stored(*graph, ts@.take(k as int)),
            names_match(*graph, names@),
            names@ == insert_all(old(names)@, initializer_names(ts@.take(k as int)), first_ids(k as nat)),
        decreases ts@.len() - k,
    {
        proof {
            assert(ts@.take(k + 1).drop_last() =~= ts@.take(k as int));
            assert(ts@.take(k + 1).last() == ts@[k as int]);
        }
        let tensor = match Tensor::from_proto(&ts[k]) {
            Ok(t) => t,
            Err(e) => {
                proof {
                    assert(first_tensor_error(ts@.take(k + 1)) == Some(e@));
                    lemma_tensor_error_persists(ts@, k + 1);
                }
                return Err(e);
            },
        };
        let name = name_or_empty(&tensor.name);
        let ghost before_graph = *graph;
        let ghost before_names = names@;
        let ghost t = tensor;
        let v = graph.add_value(tensor);
        names.insert(name, v);
        proof {
            assert(v.0 == k);
            lemma_names_match_insert(before_graph, *graph, before_names, name@, v);
            assert(initializer_names(ts@.take(k + 1)).drop_last() =~= initializer_names(ts@.take(k as int)));
            assert(first_ids((k + 1) as nat).drop_last() =~= first_ids(k as nat));
            assert(initializer_names(ts@.take(k + 1)).last() == name@);
            assert forall|q: u32| #[trigger] old(graph).value_map().contains_key(q) implies graph.value_map().contains_key(q) && graph.value_map()[q] == old(graph).value_map()[q] by {
                assert(before_graph.value_map().contains_key(q));
            }
            assert forall|i: int| 0 <= i < k + 1 implies graph.value_map().contains_key(i as u32) && tensor_outcome(#[trigger] ts@.take(k + 1)[i]) == Ok::<crate::graph::objects::TensorView, ErrorView>(graph.value_map()[i as u32]@) by {
                if i < k {
                    assert(ts@.take(k + 1)[i] == ts@.take(k as int)[i]);
                    assert(before_graph.value_map().contains_key(i as u32));
                }
            }
        }
        k = k + 1;
    }
    proof {
        assert(ts@.take(ts@.len() as int) =~= ts@);
    }
    Ok(())
}

/// Stores the values that value descriptions give, in order, each known by
/// its name (replacing an earlier value of that name); returns them.
fn add_described(graph: &mut Graph, names: &mut NameIndex<ValueId>, vis: &Vec<crate::graph::proto::ValueInfoProto>) -> (ids: Vec<ValueId>)
    requires
        old(graph).wf(),
        old(graph).value_arena().free_stack().len() == 0,
        old(graph).value_arena().slots().len() + vis@.len() <= u32::MAX + 1,
        names_match(*old(graph), old(names)@),
    ensures
        values_added(*final(graph), *old(graph)),
        final(graph).value_arena().slots().len() == old(graph).value_arena().slots().len() + vis@.len(),
        described_values(*final(graph), ids@, vis@),
        names_match(*final(graph), final(names)@),
        final(names)@ == insert_all(old(names)@, info_names(vis@), ids@),
{
    let mut ids: Vec<ValueId> = Vec::new();
    let mut k: usize = 0;
    while k < vis.len()
        invariant
            k <= vis@.len(),
            old(graph).value_arena().slots().len() + vis@.len() <= u32::MAX + 1,
            values_added(*graph, *old(graph)),
            graph.value_arena().slots().len() == old(graph).value_arena().slots().len() + k,
            described_values(*graph, ids@, vis@.take(k as int)),
            names_match(*graph, names@),
            names@ == insert_all(old(names)@, info_names(vis@.take(k as int)), ids@),
        decreases vis@.len() - k,
    {
        let tensor = Tensor::from_value_info_proto(&vis[k]).unwrap();
        let name = name_or_empty(&tensor.name);
        let ghost before_graph = *graph;
        let ghost before_names = names@;
        let v = graph.add_value(tensor);
        names.insert(name, v);
        let ghost before_ids = ids@;
        ids.push(v);
        proof {
            lemma_names_match_insert(before_graph, *graph, before_names, name@, v);
            assert(info_names(vis@.take(k + 1)).drop_last() =~= info_names(vis@.take(k as int)));
            assert(ids@.drop_last() =~= before_ids);
            assert(info_names(vis@.take(k + 1)).last() == name@);
            assert forall|q: u32| #[trigger] old(graph).value_map().contains_key(q) implies graph.value_map().contains_key(q) && graph.value_map()[q] == old(graph).value_map()[q] by {
                assert(before_graph.value_map().contains_key(q));
            }
            assert forall|i: int| 0 <= i < k + 1 implies graph.value_map().contains_key(#[trigger] ids@[i].0) && graph.value_map()[ids@[i].0]@ == value_info_tensor(vis@.take(k + 1)[i]) by {
                if i < k {
                    assert(vis@.take(k + 1)[i] == vis@.take(k as int)[i]);
                    assert(before_graph.value_map().contains_key(ids@[i].0));
                }
            }
        }
        k = k + 1;
    }
    proof {
        assert(vis@.take(vis@.len() as int) =~= vis@);
    }
    ids
}

/// The name under which a value description is known.
pub open spec fn info_name(vi: crate::graph::proto::ValueInfoProto) -> Seq<char> {
    name_text(crate::graph::objects::opt_text(vi.name))
}

/// `k` is the first of the descriptions `vis` with name `key`.
pub open spec fn first_named(vis: Seq<crate::graph::proto::ValueInfoProto>, key: Seq<char>, k: int) -> bool {
    &&& 0 <= k < vis.len()
    &&& info_name(vis[k]) == key
    &&& forall|j: int| 0 <= j < k ==> info_name(#[trigger] vis[j]) != key
}

/// From (`g1`, `m1`) to (`g2`, `m2`), each name among the first `n` value
/// descriptions that `m1` does not know was given a new value, the tensor
/// of the first description with that name; known names keep their values,
/// and no other value was added.
pub open spec fn infos_added(
    g2: Graph,
    g1: Graph,
    m2: Map<Seq<char>, ValueId>,
    m1: Map<Seq<char>, ValueId>,
    vis: Seq<crate::graph::proto::ValueInfoProto>,
    n: int,
) -> bool {
    &&& extends(m2, m1)
    &&& forall|key: Seq<char>|
        #[trigger] m2.contains_key(key) <==> m1.contains_key(key) || exists|k: int|
            0 <= k < n && info_name(#[trigger] vis[k]) == key
    &&& forall|key: Seq<char>|
        #[trigger] m2.contains_key(key) && !m1.contains_key(key) ==> {
            &&& !g1.value_map().contains_key(m2[key].0)
            &&& exists|k: int| #[trigger] first_named(vis, key, k) && g2.value_map()[m2[key].0]@ == value_info_tensor(vis[k])
        }
    &&& forall|q: u32|
        #[trigger] g2.value_map().contains_key(q) && !g1.value_map().contains_key(q) ==> exists|key: Seq<char>|
            #[trigger] m2.contains_key(key) && !m1.contains_key(key) && m2[key].0 == q
}

/// A description whose name is already known adds nothing.
proof fn lemma_info_known(
    g: Graph,
    g0: Graph,
    m: Map<Seq<char>, ValueId>,
    m0: Map<Seq<char>, ValueId>,
    vis: Seq<crate::graph::proto::ValueInfoProto>,
    k: int,
)
    requires
        0 <= k < vis.len(),
        infos_added(g, g0, m, m0, vis, k),
        m.contains_key(info_name(vis[k])),
    ensures
        infos_added(g, g0, m, m0, vis, k + 1),
{
    assert forall|key: Seq<char>|
        #[trigger] m.contains_key(key) <==> m0.contains_key(key) || exists|j: int|
            0 <= j < k + 1 && info_name(#[trigger] vis[j]) == key by {
        if exists|j: int| 0 <= j < k + 1 && info_name(#[trigger] vis[j]) == key {
            let j = choose|j: int| 0 <= j < k + 1 && info_name(#[trigger] vis[j]) == key;
            if j < k {
                assert(m.contains_key(key));
            }
        }
    }
}

/// Giving the first description of a new name a new value keeps the
/// account of what was added.
proof fn lemma_info_added(
    g: Graph,
    g2: Graph,
    m: Map<Seq<char>, ValueId>,
    g0: Graph,
    m0: Map<Seq<char>, ValueId>,
    vis: Seq<crate::graph::proto::ValueInfoProto>,
    k: int,
    v: ValueId,
)
    requires
        0 <= k < vis.len(),
        infos_added(g, g0, m, m0, vis, k),
        names_match(g, m),
        !m.contains_key(info_name(vis[k])),
        forall|q: u32| #[trigger] g0.value_map().contains_key(q) ==> g.value_map().contains_key(q),
        !g.value_map().contains_key(v.0),
        g2.value_map() == g.value_map().insert(v.0, g2.value_map()[v.0]),
        g2.value_map()[v.0]@ == value_info_tensor(vis[k]),
    ensures
        infos_added(g2, g0, m.insert(info_name(vis[k]), v), m0, vis, k + 1),
{
    let name = info_name(vis[k]);
    let m2 = m.insert(name, v);
    assert(!m0.contains_key(name));
    assert forall|key: Seq<char>| #[trigger] m0.contains_key(key) implies m2.contains_key(key) && m2[key] == m0[key] by {
        assert(m.contains_key(key));
    }
    assert forall|key: Seq<char>|
        #[trigger] m2.contains_key(key) <==> m0.contains_key(key) || exists|j: int|
            0 <= j < k + 1 && info_name(#[trigger] vis[j]) == key by {
        if key != name {
            if exists|j: int| 0 <= j < k + 1 && info_name(#[trigger] vis[j]) == key {
                let j = choose|j: int| 0 <= j < k + 1 && info_name(#[trigger] vis[j]) == key;
                assert(j < k);
            }
            if m.contains_key(key) && !m0.contains_key(key) {
                assert(exists|j: int| 0 <= j < k && info_name(#[trigger] vis[j]) == key);
            }
        } else {
            assert(info_name(vis[k]) == key);
        }
    }
    assert(first_named(vis, name, k)) by {
        assert forall|j: int| 0 <= j < k implies info_name(#[trigger] vis[j]) != name by {
            if info_name(vis[j]) == name {
                assert(m.contains_key(name));
            }
        }
    }
    assert forall|key: Seq<char>|
        #[trigger] m2.contains_key(key) && !m0.contains_key(key) implies {
            &&& !g0.value_map().contains_key(m2[key].0)
            &&& exists|j: int| #[trigger] first_named(vis, key, j) && g2.value_map()[m2[key].0]@ == value_info_tensor(vis[j])
        } by {
        if key == name {
            assert(first_named(vis, key, k));
        } else {
            assert(m.contains_key(key));
            assert(g.value_map().contains_key(m[key].0));
            let j = choose|j: int| #[trigger] first_named(vis, key, j) && g.value_map()[m[key].0]@ == value_info_tensor(vis[j]);
            assert(m[key].0 != v.0);
            assert(first_named(vis, key, j));
        }
    }
    assert forall|q: u32|
        #[trigger] g2.value_map().contains_key(q) && !g0.value_map().contains_key(q) implies exists|key: Seq<char>|
            #[trigger] m2.contains_key(key) && !m0.contains_key(key) && m2[key].0 == q by {
        if q == v.0 {
            assert(m2.contains_key(name) && !m0.contains_key(name) && m2[name].0 == q);
        } else {
            let key = choose|key: Seq<char>| #[trigger] m.contains_key(key) && !m0.contains_key(key) && m[key].0 == q;
            assert(key != name);
            assert(m2.contains_key(key) && !m0.contains_key(key) && m2[key].0 == q);
        }
    }
}

/// Stores the values of the value descriptions whose names are not known
/// yet, each known by its name.
fn add_value_infos(graph: &mut Graph, names: &mut NameIndex<ValueId>, vis: &Vec<crate::graph::proto::ValueInfoProto>)
    requires
        old(graph).wf(),
        old(graph).value_arena().free_stack().len() == 0,
        old(graph).value_arena().slots().len() + vis@.len() <= u32::MAX + 1,
        names_match(*old(graph), old(names)@),
    ensures
        values_added(*final(graph), *old(graph)),
        final(graph).value_arena().slots().len() <= old(graph).value_arena().slots().len() + vis@.len(),
        names_match(*final(graph), final(names)@),
        infos_added(*final(graph), *old(graph), final(names)@, old(names)@, vis@, vis@.len() as int),
{
    let mut k: usize = 0;
    while k < vis.len()
        invariant
            k <= vis@.len(),
            old(graph).value_arena().slots().len() + vis@.len() <= u32::MAX + 1,
            values_added(*graph, *old(graph)),
            graph.value_arena().slots().len() <= old(graph).value_arena().slots().len() + k,
            names_match(*graph, names@),
            infos_added(*graph, *old(graph), names@, old(names)@, vis@, k as int),
        decreases vis@.len() - k,
    {
        let name = name_or_empty(&vis[k].name);
        let ghost before_graph = *graph;
        let ghost before_names = names@;
        if !names.contains_key(name.as_str()) {
            let tensor = Tensor::from_value_info_proto(&vis[k]).unwrap();
            let v = graph.add_value(tensor);
            names.insert(name, v);
            proof {
                lemma_names_match_insert(before_graph, *graph, before_names, name@, v);
                assert forall|q: u32| #[trigger] old(graph).value_map().contains_key(q) implies graph.value_map().contains_key(q) && graph.value_map()[q] == old(graph).value_map()[q] by {
                    assert(before_graph.value_map().contains_key(q));
                }
                lemma_info_added(before_graph, *graph, before_names, *old(graph), old(names)@, vis@, k as int, v);
            }
        } else {
            proof {
                lemma_info_known(*graph, *old(graph), names@, old(names)@, vis@, k as int);
            }
        }
        k = k + 1;
    }
}

/// Node `k` is registered: as a consumer of each of its inputs, and each
/// of its outputs has a producer.
pub open spec fn node_registered(g: Graph, k: u32) -> bool {
    let n = g.node_map()[k];
    &&& forall|j: int|
        0 <= j < n.inputs@.len() ==> g.consumer_lists().contains_key(#[trigger] n.inputs@[j].0)
            && g.consumer_lists()[n.inputs@[j].0].contains(NodeId(k))
    &&& forall|j: int| 0 <= j < n.outputs@.len() ==> g.producers().contains_key(#[trigger] n.outputs@[j].0)
}

/// Registering consumers keeps every list as a prefix of the new one and
/// adds `id` to the list of each value in `ins`.
proof fn lemma_register_consumers(m: Map<u32, Seq<NodeId>>, ins: Seq<ValueId>, id: NodeId)
    ensures
        forall|v: u32|
            m.contains_key(v) ==> #[trigger] register_consumers(m, ins, id).contains_key(v)
                && m[v].is_prefix_of(register_consumers(m, ins, id)[v]),
        forall|j: int|
            0 <= j < ins.len() ==> register_consumers(m, ins, id).contains_key(#[trigger] ins[j].0)
                && register_consumers(m, ins, id)[ins[j].0].contains(id),
    decreases ins.len(),
{
    if ins.len() > 0 {
        let prev = register_consumers(m, ins.drop_last(), id);
        lemma_register_consumers(m, ins.drop_last(), id);
        let v0 = ins.last().0;
        let l = list_or_empty(prev, v0).push(id);
        let r = register_consumers(m, ins, id);
        assert(r == prev.insert(v0, l));
        assert(l[l.len() - 1] == id);
        assert forall|v: u32| m.contains_key(v) implies #[trigger] r.contains_key(v) && m[v].is_prefix_of(r[v]) by {
            assert(register_consumers(m, ins.drop_last(), id).contains_key(v));
            assert(m[v].is_prefix_of(prev[v]));
            if v == v0 {
                assert(r[v] == l);
                assert(prev[v].is_prefix_of(l));
            }
        }
        assert forall|j: int| 0 <= j < ins.len() implies r.contains_key(#[trigger] ins[j].0) && r[ins[j].0].contains(id) by {
            if j == ins.len() - 1 {
                assert(r[v0] == l);
            } else {
                assert(ins.drop_last()[j] == ins[j]);
                let w = ins[j].0;
                assert(prev.contains_key(w) && prev[w].contains(id));
                if w == v0 {
                    assert(r[w] == l);
                    let i = choose|i: int| 0 <= i < prev[w].len() && prev[w][i] == id;
                    assert(l[i] == id);
                } else {
                    assert(r[w] == prev[w]);
                }
            }
        }
    }
}

/// Registering producers keeps every registered value and registers each
/// value in `outs`.
proof fn lemma_register_producers(m: Map<u32, NodeId>, outs: Seq<ValueId>, id: NodeId)
    ensures
        forall|v: u32| m.contains_key(v) ==> #[trigger] register_producers(m, outs, id).contains_key(v),
        forall|j: int| 0 <= j < outs.len() ==> register_producers(m, outs, id).contains_key(#[trigger] outs[j].0),
    decreases outs.len(),
{
    if outs.len() > 0 {
        lemma_register_producers(m, outs.drop_last(), id);
        assert forall|v: u32| m.contains_key(v) implies #[trigger] register_producers(m, outs, id).contains_key(v) by {
            assert(register_producers(m, outs.drop_last(), id).contains_key(v));
        }
        assert forall|j: int| 0 <= j < outs.len() implies register_producers(m, outs, id).contains_key(#[trigger] outs[j].0) by {
            if j < outs.len() - 1 {
                assert(outs.drop_last()[j] == outs[j]);
            }
        }
    }
}

/// Node-level facts of the nodes added so far.
pub open spec fn nodes_built(g: Graph, ns: Seq<NodeProto>, m: Map<Seq<char>, ValueId>) -> bool {
    &&& forall|k: u32| g.node_map().contains_key(k) <==> (k as int) < ns.len()
    &&& forall|k: int| 0 <= k < ns.len() ==> node_built(g.node_map()[k as u32], #[trigger] ns[k], m)
}

/// Adds a node for each node description, in order, resolving its input
/// and output names (a name not known yet gets a placeholder value); fails
/// with the first node description that does not convert.
fn add_nodes(graph: &mut Graph, names: &mut NameIndex<ValueId>, ns: &Vec<NodeProto>) -> (r: Result<(), OnnxOptError>)
    requires
        old(graph).wf(),
        old(graph).value_arena().free_stack().len() == 0,
        old(graph).node_arena().free_stack().len() == 0,
        old(graph).node_arena().slots().len() == 0,
        old(graph).value_arena().slots().len() + io_count(ns@) <= u32::MAX + 1,
        ns@.len() <= u32::MAX + 1,
        names_match(*old(graph), old(names)@),
    ensures
        match first_node_error(ns@) {
            Some(e) => r matches Err(x) && x@ == e,
            None => r is Ok,
        },
        r is Ok ==> {
            &&& final(graph).wf()
            &&& nodes_built(*final(graph), ns@, final(names)@)
            &&& names_match(*final(graph), final(names)@)
            &&& final(graph).input_values() == old(graph).input_values()
            &&& final(graph).output_values() == old(graph).output_values()
            &&& forall|q: u32| #[trigger] old(graph).value_map().contains_key(q) ==> final(graph).value_map().contains_key(q)
                && final(graph).value_map()[q] == old(graph).value_map()[q]
            &&& extends(final(names)@, old(names)@)
            &&& new_names_placeholders(*final(graph), final(names)@, old(names)@)
            &&& forall|q: u32| #[trigger] final(graph).node_map().contains_key(q) ==> node_registered(*final(graph), q)
        },
{
    proof {
        assert(old(graph).node_map() =~= Map::<u32, Node>::empty());
    }
    let mut k: usize = 0;
    while k < ns.len()
        invariant
            k <= ns@.len(),
            ns@.len() <= u32::MAX + 1,
            graph.wf(),
            graph.value_arena().free_stack().len() == 0,
            graph.node_arena().free_stack().len() == 0,
            graph.node_arena().slots().len() == k,
            old(graph).value_arena().slots().len() + io_count(ns@) <= u32::MAX + 1,
            graph.value_arena().slots().len() <= old(graph).value_arena().slots().len() + io_count(ns@.take(k as int)),
            first_node_error(ns@.take(k as int)) is None,
            nodes_built(*graph, ns@.take(k as int), names@),
            names_match(*graph, names@),
            graph.input_values() == old(graph).input_values(),
            graph.output_values() == old(graph).output_values(),
            forall|q: u32| #[trigger] old(graph).value_map().contains_key(q) ==> graph.value_map().contains_key(q)
                && graph.value_map()[q] == old(graph).value_map()[q],
            extends(names@, old(names)@),
            new_names_placeholders(*graph, names@, old(names)@),
            forall|q: u32| #[trigger] graph.node_map().contains_key(q) ==> node_registered(*graph, q),
        decreases ns@.len() - k,
    {
        let node_proto = &ns[k];
        proof {
            assert(ns@.take(k + 1).drop_last() =~= ns@.take(k as int));
            assert(ns@.take(k + 1).last() == *node_proto);
            lemma_io_count_prefix(ns@, k + 1);
        }
        let mut node = match Node::from_node_proto(node_proto) {
            Ok(n) => n,
            Err(e) => {
                proof {
                    assert(first_node_error(ns@.take(k + 1)) == Some(e@));
                    lemma_node_error_persists(ns@, k + 1);
                }
                return Err(e);
            },
        };
        proof {
            assert(first_node_error(ns@.take(k + 1)) is None);
        }
        let ghost g0 = *graph;
        let ghost m0 = names@;
        let inputs = resolve_names(graph, names, &node_proto.input);
        let ghost g1 = *graph;
        let ghost m1 = names@;
        let outputs = resolve_names(graph, names, &node_proto.output);
        let ghost m2 = names@;
        proof {
            lemma_resolved_extends(inputs@, texts_of(node_proto.input), m1, m2);
        }
        node.inputs = inputs;
        node.outputs = outputs;
        let ghost g2 = *graph;
        let ghost added = node;
        let id = graph.add_node(node);
        proof {
            assert(id.0 == k);
            lemma_register_consumers(g2.consumer_lists(), added.inputs@, id);
            lemma_register_producers(g2.producers(), added.outputs@, id);
            assert forall|q: u32| #[trigger] graph.node_map().contains_key(q) implies node_registered(*graph, q) by {
                let n = graph.node_map()[q];
                if q == id.0 {
                    assert(n == added);
                } else {
                    assert(g0.node_map().contains_key(q));
                    assert(node_registered(g0, q));
                    assert(n == g0.node_map()[q]);
                    assert forall|j: int| 0 <= j < n.inputs@.len() implies graph.consumer_lists().contains_key(#[trigger] n.inputs@[j].0)
                        && graph.consumer_lists()[n.inputs@[j].0].contains(NodeId(q)) by {
                        let w = n.inputs@[j].0;
                        assert(g2.consumer_lists().contains_key(w) && g2.consumer_lists()[w].contains(NodeId(q)));
                        assert(graph.consumer_lists() == register_consumers(g2.consumer_lists(), added.inputs@, id));
                        assert(register_consumers(g2.consumer_lists(), added.inputs@, id).contains_key(w));
                        assert(g2.consumer_lists()[w].is_prefix_of(graph.consumer_lists()[w]));
                        let i = choose|i: int| 0 <= i < g2.consumer_lists()[w].len() && g2.consumer_lists()[w][i] == NodeId(q);
                        assert(graph.consumer_lists()[w][i] == NodeId(q));
                    }
                    assert forall|j: int| 0 <= j < n.outputs@.len() implies graph.producers().contains_key(#[trigger] n.outputs@[j].0) by {
                        assert(g2.producers().contains_key(n.outputs@[j].0));
                        assert(register_producers(g2.producers(), added.outputs@, id).contains_key(n.outputs@[j].0));
                    }
                }
            }
            assert forall|key: Seq<char>| #[trigger] m0.contains_key(key) implies m2.contains_key(key) && m2[key] == m0[key] by {
                assert(m1.contains_key(key));
            }
            assert forall|q: u32| #[trigger] g0.value_map().contains_key(q) implies graph.value_map().contains_key(q) && graph.value_map()[q] == g0.value_map()[q] by {
                assert(g1.value_map().contains_key(q));
            }
            assert forall|q: u32| #[trigger] old(graph).value_map().contains_key(q) implies graph.value_map().contains_key(q) && graph.value_map()[q] == old(graph).value_map()[q] by {
                assert(g0.value_map().contains_key(q));
            }
            assert forall|key: Seq<char>| #[trigger] m2.contains_key(key) implies graph.value_map().contains_key(m2[key].0) && value_name(graph.value_map()[m2[key].0]) == key by {
                assert(g2.value_map().contains_key(m2[key].0));
            }
            assert forall|key: Seq<char>| #[trigger] old(names)@.contains_key(key) implies m2.contains_key(key) && m2[key] == old(names)@[key] by {
                assert(m0.contains_key(key));
            }
            assert forall|key: Seq<char>| #[trigger] m2.contains_key(key) && !old(names)@.contains_key(key) implies placeholder(graph.value_map()[m2[key].0]) by {
                assert(g2.value_map().contains_key(m2[key].0));
                if m1.contains_key(key) {
                    assert(g1.value_map().contains_key(m1[key].0));
                    if m0.contains_key(key) {
                        assert(g0.value_map().contains_key(m0[key].0));
                        assert(placeholder(g0.value_map()[m0[key].0]));
                    } else {
                        assert(placeholder(g1.value_map()[m1[key].0]));
                    }
                    assert(m2[key] == m1[key]);
                } else {
                    assert(placeholder(g2.value_map()[m2[key].0]));
                }
            }
            assert forall|q: u32| graph.node_map().contains_key(q) <==> (q as int) < ns@.take(k + 1).len() by {
                if q != k as u32 {
                    assert(g0.node_map().contains_key(q) <==> (q as int) < ns@.take(k as int).len());
                }
            }
            assert forall|i: int| 0 <= i < ns@.take(k + 1).len() implies node_built(graph.node_map()[i as u32], #[trigger] ns@.take(k + 1)[i], m2) by {
                if i < k {
                    assert(ns@.take(k + 1)[i] == ns@.take(k as int)[i]);
                    assert(node_built(g0.node_map()[i as u32], ns@.take(k as int)[i], m0));
                    let n = g0.node_map()[i as u32];
                    lemma_resolved_extends(n.inputs@, texts_of(ns@[i].input), m0, m2);
                    lemma_resolved_extends(n.outputs@, texts_of(ns@[i].output), m0, m2);
                    assert(graph.node_map()[i as u32] == n);
                } else {
                    assert(ns@.take(k + 1)[i] == *node_proto);
                }
            }
        }
        k = k + 1;
    }
    proof {
        assert(ns@.take(ns@.len() as int) =~= ns@);
    }
    Ok(())
}

impl Graph {
    /// The graph of a model; a model without a graph is invalid.
    pub fn from_model_proto(model: &ModelProto) -> (r: Result<Graph, OnnxOptError>)
        requires
            model.graph matches Some(gp) ==> value_demand(gp) <= u32::MAX + 1 && gp.node@.len() <= u32::MAX + 1,
        ensures
            match model.graph {
                None => r matches Err(e) && e@ == ErrorView::InvalidModel("Model has no graph"@),
                Some(gp) => match graph_error(gp) {
                    Some(e) => r matches Err(x) && x@ == e,
                    None => r matches Ok(g) && graph_built(g, gp),
                },
            },
    {
        match &model.graph {
            Some(graph_proto) => Self::from_graph_proto(graph_proto),
            None => Err(OnnxOptError::InvalidModel("Model has no graph".to_string())),
        }
    }

    /// Builds the graph a graph description gives: the initializers as
    /// constant values, then the graph's inputs and outputs, then the
    /// described intermediate values not known by name yet, then one node
    /// per node description, whose inputs and outputs are the values known
    /// by their names (a name not known yet gets a placeholder value). Fails
    /// with the first initializer that does not convert, else with the
    /// first node description that does not.
    pub fn from_graph_proto(graph_proto: &GraphProto) -> (r: Result<Graph, OnnxOptError>)
        requires
            value_demand(*graph_proto) <= u32::MAX + 1,
            graph_proto.node@.len() <= u32::MAX + 1,
        ensures
            match graph_error(*graph_proto) {
                Some(e) => r matches Err(x) && x@ == e,
                None => r matches Ok(g) && graph_built(g, *graph_proto),
            },
    {
        let mut graph = Graph::new();
        let mut names: NameIndex<ValueId> = NameIndex::new();
        proof {
            assert forall|key: Seq<char>| #[trigger] names@.contains_key(key) implies graph.value_map().contains_key(names@[key].0) && value_name(graph.value_map()[names@[key].0]) == key by {
            }
        }
        match add_initializers(&mut graph, &mut names, &graph_proto.initializer) {
            Ok(()) => {},
            Err(e) => {
                return Err(e);
            },
        }
        let ghost g1 = graph;
        let ghost m1 = names@;
        let inputs = add_described(&mut graph, &mut names, &graph_proto.input);
        let ghost g2 = graph;
        let outputs = add_described(&mut graph, &mut names, &graph_proto.output);
        let ghost g3 = graph;
        let ghost m3 = names@;
        add_value_infos(&mut graph, &mut names, &graph_proto.value_info);
        let ghost g4 = graph;
        let ghost m4 = names@;
        graph.set_graph_inputs(inputs);
        graph.set_graph_outputs(outputs);
        let ghost g5 = graph;
        let ghost m5 = names@;
        let built = add_nodes(&mut graph, &mut names, &graph_proto.node);
        match built {
            Ok(()) => {},
            Err(e) => {
                return Err(e);
            },
        }
        proof {
            let g = graph;
            assert(initializers_stored(g, graph_proto.initializer@)) by {
                assert forall|k: int| 0 <= k < graph_proto.initializer@.len() implies g.value_map().contains_key(k as u32)
                    && tensor_outcome(#[trigger] graph_proto.initializer@[k]) == Ok::<crate::graph::objects::TensorView, ErrorView>(g.value_map()[k as u32]@) by {
                    assert(g1.value_map().contains_key(k as u32));
                    assert(g2.value_map().contains_key(k as u32));
                    assert(g3.value_map().contains_key(k as u32));
                    assert(g5.value_map().contains_key(k as u32));
                }
            }
            assert(described_values(g, g.input_values(), graph_proto.input@)) by {
                assert forall|k: int| 0 <= k < graph_proto.input@.len() implies g.value_map().contains_key(#[trigger] g.input_values()[k].0)
                    && g.value_map()[g.input_values()[k].0]@ == value_info_tensor(graph_proto.input@[k]) by {
                    let v = inputs@[k];
                    assert(g2.value_map().contains_key(v.0));
                    assert(g3.value_map().contains_key(v.0));
                    assert(g5.value_map().contains_key(v.0));
                }
            }
            assert(described_values(g, g.output_values(), graph_proto.output@)) by {
                assert forall|k: int| 0 <= k < graph_proto.output@.len() implies g.value_map().contains_key(#[trigger] g.output_values()[k].0)
                    && g.value_map()[g.output_values()[k].0]@ == value_info_tensor(graph_proto.output@[k]) by {
                    let v = outputs@[k];
                    assert(g3.value_map().contains_key(v.0));
                    assert(g5.value_map().contains_key(v.0));
                }
            }
            let d = declared_names(g, *graph_proto);
            assert(d == m3);
            assert forall|key: Seq<char>| #[trigger] d.contains_key(key) implies names@.contains_key(key) && names@[key] == d[key] by {
                assert(m4.contains_key(key));
                assert(m5.contains_key(key));
            }
            assert forall|key: Seq<char>| #[trigger] names@.contains_key(key) && !d.contains_key(key) implies {
                ||| exists|k: int|
                    #[trigger] first_named(graph_proto.value_info@, key, k) && g.value_map()[names@[key].0]@ == value_info_tensor(graph_proto.value_info@[k])
                ||| (forall|k: int| 0 <= k < graph_proto.value_info@.len() ==> info_name(#[trigger] graph_proto.value_info@[k]) != key)
                    && placeholder(g.value_map()[names@[key].0])
            } by {
                if m5.contains_key(key) {
                    assert(m4.contains_key(key) && !m3.contains_key(key));
                    assert(g4.value_map().contains_key(m4[key].0));
                    assert(g5.value_map().contains_key(m4[key].0));
                    let k = choose|k: int| #[trigger] first_named(graph_proto.value_info@, key, k) && g4.value_map()[m4[key].0]@ == value_info_tensor(graph_proto.value_info@[k]);
                    assert(first_named(graph_proto.value_info@, key, k));
                } else {
                    assert(placeholder(g.value_map()[names@[key].0]));
                    assert forall|k: int| 0 <= k < graph_proto.value_info@.len() implies info_name(#[trigger] graph_proto.value_info@[k]) != key by {
                        if info_name(graph_proto.value_info@[k]) == key {
                            assert(m4.contains_key(key));
                        }
                    }
                }
            }
            assert(names_match(g, names@) && names_resolve(g, *graph_proto, names@) && forall|k: int| 0 <= k < graph_proto.node@.len() ==> node_built(g.node_map()[k as u32], #[trigger] graph_proto.node@[k], names@));
        }
        Ok(graph)
    }
}

/// The `j`-th input (or output) name of node description `k`.
pub open spec fn endpoint_name(gp: GraphProto, k: int, j: int, output: bool) -> Seq<char> {
    if output {
        texts_of(gp.node@[k].output)[j]
    } else {
        texts_of(gp.node@[k].input)[j]
    }
}

/// The `j`-th input (or output) value of node `k`.
pub open spec fn endpoint_value(g: Graph, k: int, j: int, output: bool) -> ValueId {
    if output {
        g.node_map()[k as u32].outputs@[j]
    } else {
        g.node_map()[k as u32].inputs@[j]
    }
}

/// Position `j` is an input (or output) position of node description `k`.
pub open spec fn is_endpoint(gp: GraphProto, k: int, j: int, output: bool) -> bool {
    &&& 0 <= k < gp.node@.len()
    &&& 0 <= j
    &&& if output {
        j < gp.node@[k].output@.len()
    } else {
        j < gp.node@[k].input@.len()
    }
}

/// In a graph built from a description, node inputs and outputs named
/// alike in the description are one and the same value, and that value is
/// live and carries the name.
pub proof fn lemma_named_alike_shared(g: Graph, gp: GraphProto, k1: int, j1: int, o1: bool, k2: int, j2: int, o2: bool)
    requires
        graph_built(g, gp),
        is_endpoint(gp, k1, j1, o1),
        is_endpoint(gp, k2, j2, o2),
        endpoint_name(gp, k1, j1, o1) == endpoint_name(gp, k2, j2, o2),
    ensures
        endpoint_value(g, k1, j1, o1) == endpoint_value(g, k2, j2, o2),
        g.value_map().contains_key(endpoint_value(g, k1, j1, o1).0),
        value_name(g.value_map()[endpoint_value(g, k1, j1, o1).0]) == endpoint_name(gp, k1, j1, o1),
{
    let m = choose|m: Map<Seq<char>, ValueId>|
        names_match(g, m) && forall|k: int| 0 <= k < gp.node@.len() ==> node_built(g.node_map()[k as u32], #[trigger] gp.node@[k], m);
    assert(node_built(g.node_map()[k1 as u32], gp.node@[k1], m));
    assert(node_built(g.node_map()[k2 as u32], gp.node@[k2], m));
    let name = endpoint_name(gp, k1, j1, o1);
    if o1 {
        assert(m.contains_key(texts_of(gp.node@[k1].output)[j1]));
    } else {
        assert(m.contains_key(texts_of(gp.node@[k1].input)[j1]));
    }
    if o2 {
        assert(m.contains_key(texts_of(gp.node@[k2].output)[j2]));
    } else {
        assert(m.contains_key(texts_of(gp.node@[k2].input)[j2]));
    }
    assert(endpoint_value(g, k1, j1, o1) == m[name]);
    assert(endpoint_value(g, k2, j2, o2) == m[name]);
}

} // verus!

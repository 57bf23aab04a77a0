//! The `ConstantFolding` pass: finds nodes whose inputs are all constants
//! and whose operation can be evaluated ahead of time.

use vstd::prelude::*;
use crate::graph::objects::{NodeId, Tensor, TensorData};
use crate::graph::op_kind::OpKind;
use crate::graph::store::Graph;
use crate::passes::error::PassError;
use crate::utils::text::{decimal, decimal_text, prefixed, str_eq};

verus! {

/// Operations that constant folding handles.
pub open spec fn foldable_kind(k: OpKind) -> bool {
    ||| k is Add
    ||| k is Sub
    ||| k is Mul
    ||| k is Div
    ||| k is Relu
    ||| k is Identity
}

/// Every input of node `k` is a value that carries constant data.
pub open spec fn inputs_constant(g: Graph, k: u32) -> bool {
    forall|i: int|
        0 <= i < g.node_map()[k].inputs@.len() ==> {
            &&& g.value_map().contains_key(#[trigger] g.node_map()[k].inputs@[i].0)
            &&& g.value_map()[g.node_map()[k].inputs@[i].0].data is Some
        }
}

/// Node `k` is live, of a foldable kind, and all its inputs are constants.
pub open spec fn fold_candidate(g: Graph, k: u32) -> bool {
    &&& g.node_map().contains_key(k)
    &&& foldable_kind(g.node_map()[k].op_kind)
    &&& inputs_constant(g, k)
}

/// The bits of the single element of a 32-bit float tensor holding exactly
/// one element.
pub open spec fn scalar_f32(t: Tensor) -> Option<u32> {
    match t.data {
        Some(TensorData::Float32(v)) => if v@.len() == 1 {
            Some(v@[0])
        } else {
            None
        },
        _ => None,
    }
}

/// The bits are those of positive or negative zero.
pub open spec fn is_zero_f32(bits: u32) -> bool {
    bits == 0 || bits == 0x8000_0000
}

/// The two inputs of binary node `k`, when both are present.
pub open spec fn binary_inputs(g: Graph, k: u32) -> Option<(Tensor, Tensor)> {
    let n = g.node_map()[k];
    if n.inputs@.len() == 2 && g.value_map().contains_key(n.inputs@[0].0) && g.value_map().contains_key(n.inputs@[1].0) {
        Some((g.value_map()[n.inputs@[0].0], g.value_map()[n.inputs@[1].0]))
    } else {
        None
    }
}

/// Both inputs of binary node `k` are scalar 32-bit floats.
pub open spec fn scalar_operands(g: Graph, k: u32) -> bool {
    match binary_inputs(g, k) {
        Some((a, b)) => scalar_f32(a) is Some && scalar_f32(b) is Some,
        None => false,
    }
}

/// Both inputs of binary node `k` are scalar 32-bit floats and the second
/// one is zero.
pub open spec fn zero_divisor(g: Graph, k: u32) -> bool {
    match binary_inputs(g, k) {
        Some((a, b)) => scalar_f32(a) is Some && match scalar_f32(b) {
            Some(y) => is_zero_f32(y),
            None => false,
        },
        None => false,
    }
}

/// Node `k` divides a scalar float by a scalar zero.
pub open spec fn divides_by_zero(g: Graph, k: u32) -> bool {
    &&& g.node_map()[k].op_kind is Div
    &&& zero_divisor(g, k)
}

/// Node `k` can be folded: an identity with one input and one output, an
/// arithmetic operation on two scalar 32-bit floats (not dividing by zero),
/// or a Relu of a 32-bit float tensor.
pub open spec fn folds(g: Graph, k: u32) -> bool {
    let n = g.node_map()[k];
    match n.op_kind {
        OpKind::Identity => n.inputs@.len() == 1 && n.outputs@.len() == 1,
        OpKind::Add | OpKind::Sub | OpKind::Mul | OpKind::Div => {
            &&& scalar_operands(g, k)
            &&& !divides_by_zero(g, k)
        },
        OpKind::Relu => {
            &&& n.inputs@.len() == 1
            &&& g.value_map().contains_key(n.inputs@[0].0)
            &&& g.value_map()[n.inputs@[0].0].data matches Some(TensorData::Float32(_))
        },
        _ => false,
    }
}

/// What folding binary node `k` under operation `op` gives: `false` unless
/// it has two inputs; an error naming a missing input tensor; `true` for
/// "add", "sub", "mul" and "div" on two scalar 32-bit floats, except an
/// error for "div" by zero; `false` otherwise.
pub open spec fn arith_outcome(g: Graph, k: u32, op: Seq<char>) -> Result<bool, Seq<char>> {
    let n = g.node_map()[k];
    if n.inputs@.len() != 2 {
        Ok(false)
    } else if !g.value_map().contains_key(n.inputs@[0].0) {
        Err("First input tensor not found"@)
    } else if !g.value_map().contains_key(n.inputs@[1].0) {
        Err("Second input tensor not found"@)
    } else {
        match (scalar_f32(g.value_map()[n.inputs@[0].0]), scalar_f32(g.value_map()[n.inputs@[1].0])) {
            (Some(_), Some(y)) => if op == "div"@ {
                if is_zero_f32(y) {
                    Err("Division by zero"@)
                } else {
                    Ok(true)
                }
            } else if op == "add"@ || op == "sub"@ || op == "mul"@ {
                Ok(true)
            } else {
                Ok(false)
            },
            _ => Ok(false),
        }
    }
}

/// The candidates that fold.
pub open spec fn folded_nodes(g: Graph) -> Set<u32> {
    g.node_map().dom().filter(|k: u32| fold_candidate(g, k) && folds(g, k))
}

/// Every node that adds, subtracts, multiplies or divides two scalar
/// 32-bit float constants folds, whichever of the four operations it is,
/// unless it divides by zero.
pub proof fn lemma_scalar_arithmetic_folds(g: Graph, k: u32)
    requires
        g.node_map().contains_key(k),
        ({
            let op = g.node_map()[k].op_kind;
            op is Add || op is Sub || op is Mul || op is Div
        }),
        g.node_map()[k].inputs@.len() == 2,
        g.value_map().contains_key(g.node_map()[k].inputs@[0].0),
        g.value_map().contains_key(g.node_map()[k].inputs@[1].0),
        g.value_map()[g.node_map()[k].inputs@[0].0].data matches Some(TensorData::Float32(x)) && x@.len() == 1,
        g.value_map()[g.node_map()[k].inputs@[1].0].data matches Some(TensorData::Float32(y)) && y@.len() == 1,
        g.node_map()[k].op_kind is Div ==> (g.value_map()[g.node_map()[k].inputs@[1].0].data matches Some(
            TensorData::Float32(y),
        ) && y@[0] != 0 && y@[0] != 0x8000_0000),
    ensures
        folded_nodes(g).contains(k),
{
    let n = g.node_map()[k];
    assert forall|i: int| 0 <= i < n.inputs@.len() implies {
        &&& g.value_map().contains_key(#[trigger] n.inputs@[i].0)
        &&& g.value_map()[n.inputs@[i].0].data is Some
    } by {
        if i == 0 {
        } else {
            assert(i == 1);
        }
    }
    assert(fold_candidate(g, k));
    assert(folds(g, k));
}

/// An Identity with one constant input and one output folds, and so does
/// a Relu of a 32-bit float constant.
pub proof fn lemma_identity_and_relu_fold(g: Graph, k: u32)
    requires
        g.node_map().contains_key(k),
        g.node_map()[k].op_kind is Identity || g.node_map()[k].op_kind is Relu,
        g.node_map()[k].inputs@.len() == 1,
        g.node_map()[k].op_kind is Identity ==> g.node_map()[k].outputs@.len() == 1,
        g.value_map().contains_key(g.node_map()[k].inputs@[0].0),
        g.value_map()[g.node_map()[k].inputs@[0].0].data is Some,
        g.node_map()[k].op_kind is Relu ==> g.value_map()[g.node_map()[k].inputs@[0].0].data matches Some(
            TensorData::Float32(_),
        ),
    ensures
        folded_nodes(g).contains(k),
{
    let n = g.node_map()[k];
    assert forall|i: int| 0 <= i < n.inputs@.len() implies {
        &&& g.value_map().contains_key(#[trigger] n.inputs@[i].0)
        &&& g.value_map()[n.inputs@[i].0].data is Some
    } by {
        assert(i == 0);
    }
    assert(fold_candidate(g, k));
}

/// A Div of a scalar 32-bit float constant by a scalar zero (of either
/// sign) is a candidate that divides by zero, so detection fails on it.
pub proof fn lemma_scalar_zero_divisor(g: Graph, k: u32)
    requires
        g.node_map().contains_key(k),
        g.node_map()[k].op_kind is Div,
        g.node_map()[k].inputs@.len() == 2,
        g.value_map().contains_key(g.node_map()[k].inputs@[0].0),
        g.value_map().contains_key(g.node_map()[k].inputs@[1].0),
        g.value_map()[g.node_map()[k].inputs@[0].0].data matches Some(TensorData::Float32(x)) && x@.len() == 1,
        g.value_map()[g.node_map()[k].inputs@[1].0].data matches Some(TensorData::Float32(y)) && y@.len() == 1
            && (y@[0] == 0 || y@[0] == 0x8000_0000),
    ensures
        fold_candidate(g, k),
        divides_by_zero(g, k),
        !folded_nodes(g).contains(k),
{
    let n = g.node_map()[k];
    assert forall|i: int| 0 <= i < n.inputs@.len() implies {
        &&& g.value_map().contains_key(#[trigger] n.inputs@[i].0)
        &&& g.value_map()[n.inputs@[i].0].data is Some
    } by {
        if i != 0 {
            assert(i == 1);
        }
    }
}

/// The operations constant folding handles are exactly Add, Sub, Mul,
/// Div, Relu and Identity; and a node with an input that is missing or
/// holds no data is never a candidate.
pub proof fn lemma_foldable_operations(k: OpKind, g: Graph, n: u32, i: int)
    ensures
        foldable_kind(k) <==> (k == OpKind::Add || k == OpKind::Sub || k == OpKind::Mul || k == OpKind::Div
            || k == OpKind::Relu || k == OpKind::Identity),
        g.node_map().contains_key(n) && 0 <= i < g.node_map()[n].inputs@.len() && (!g.value_map().contains_key(
            g.node_map()[n].inputs@[i].0,
        ) || g.value_map()[g.node_map()[n].inputs@[i].0].data is None) ==> !fold_candidate(g, n),
{
}

/// The text reporting that node `id` is missing.
pub open spec fn missing_node_text(id: NodeId) -> Seq<char> {
    "Node NodeId("@ + decimal_text(id.0 as usize) + ") not found"@
}

/// Constant folding optimization pass.
///
/// This pass identifies nodes whose inputs are all constants and which can
/// be replaced by a single constant node holding the computed result; the
/// replacement itself is `Graph::replace_with_constant`.
#[derive(Debug, Clone)]
pub struct ConstantFolding {}

impl ConstantFolding {
    /// Create a new constant folding pass.
    pub fn new() -> (p: Self) {
        ConstantFolding {}
    }

    /// Whether every input of the node is a value with constant data; an
    /// error names a node that is not in the graph.
    pub fn all_inputs_are_constants(&self, graph: &Graph, node_id: NodeId) -> (r: Result<bool, PassError>)
        requires
            graph.wf(),
        ensures
            graph.node_map().contains_key(node_id.0) ==> r == Ok::<bool, PassError>(
                inputs_constant(*graph, node_id.0),
            ),
            !graph.node_map().contains_key(node_id.0) ==> (r matches Err(
                PassError::GraphOperationFailed { details },
            ) && details@ == missing_node_text(node_id)),
    {
        match graph.node(node_id) {
            Some(node) => {
                let mut i: usize = 0;
                while i < node.inputs.len()
                    invariant
                        graph.wf(),
                        graph.node_map().contains_key(node_id.0),
                        *node == graph.node_map()[node_id.0],
                        i <= node.inputs@.len(),
                        forall|j: int| 0 <= j < i ==> {
                            &&& graph.value_map().contains_key(#[trigger] node.inputs@[j].0)
                            &&& graph.value_map()[node.inputs@[j].0].data is Some
                        },
                    decreases node.inputs@.len() - i,
                {
                    match graph.tensor(node.inputs[i]) {
                        Some(tensor) => {
                            if tensor.data.is_none() {
                                return Ok(false);
                            }
                        },
                        None => {
                            return Ok(false);
                        },
                    }
                    i = i + 1;
                }
                Ok(true)
            },
            None => Err(PassError::GraphOperationFailed { details: missing_node(node_id) }),
        }
    }

    /// Whether the operation is one constant folding handles.
    pub fn is_constant_foldable_op(&self, op_kind: &OpKind) -> (b: bool)
        ensures
            b == foldable_kind(*op_kind),
    {
        matches!(
            op_kind,
            OpKind::Add | OpKind::Sub | OpKind::Mul | OpKind::Div | OpKind::Relu | OpKind::Identity
        )
    }

    /// All nodes that can be constant folded, in increasing index order.
    pub fn find_candidates(&self, graph: &Graph) -> (r: Result<Vec<NodeId>, PassError>)
        requires
            graph.wf(),
        ensures
            r matches Ok(ids) && {
                &&& forall|a: int, b: int| 0 <= a < b < ids@.len() ==> ids@[a].0 < ids@[b].0
                &&& forall|k: int| 0 <= k < ids@.len() ==> fold_candidate(*graph, #[trigger] ids@[k].0)
                &&& forall|x: u32| fold_candidate(*graph, x) ==> ids@.contains(NodeId(x))
            },
    {
        let all = graph.node_ids();
        let mut candidates: Vec<NodeId> = Vec::new();
        let mut i: usize = 0;
        while i < all.len()
            invariant
                graph.wf(),
                i <= all@.len(),
                forall|a: int, b: int| 0 <= a < b < all@.len() ==> all@[a].0 < all@[b].0,
                forall|k: int| 0 <= k < all@.len() ==> graph.node_map().contains_key(#[trigger] all@[k].0),
                forall|x: u32| graph.node_map().contains_key(x) ==> all@.contains(NodeId(x)),
                forall|a: int, b: int| 0 <= a < b < candidates@.len() ==> candidates@[a].0 < candidates@[b].0,
                forall|k: int| 0 <= k < candidates@.len() ==> exists|j: int| 0 <= j < i && all@[j] == #[trigger] candidates@[k],
                forall|k: int| 0 <= k < candidates@.len() ==> fold_candidate(*graph, #[trigger] candidates@[k].0),
                forall|j: int| 0 <= j < i && fold_candidate(*graph, #[trigger] all@[j].0) ==> candidates@.contains(all@[j]),
            decreases all@.len() - i,
        {
            let node_id = all[i];
            let node = graph.node(node_id).unwrap();
            let ghost before = candidates@;
            if self.is_constant_foldable_op(&node.op_kind) {
                let constant = self.all_inputs_are_constants(graph, node_id)?;
                if constant {
                    candidates.push(node_id);
                    proof {
                        assert forall|a: int, b: int| 0 <= a < b < candidates@.len() implies candidates@[a].0 < candidates@[b].0 by {
                            if b == candidates@.len() - 1 && a < before.len() {
                                let j = choose|j: int| 0 <= j < i && all@[j] == before[a];
                                assert(all@[j].0 < all@[i as int].0);
                            }
                        }
                    }
                }
            }
            proof {
                assert forall|k: int| 0 <= k < candidates@.len() implies exists|j: int| 0 <= j < i + 1 && all@[j] == #[trigger] candidates@[k] by {
                    if k < before.len() {
                        let j = choose|j: int| 0 <= j < i && all@[j] == before[k];
                        assert(all@[j] == candidates@[k]);
                    } else {
                        assert(all@[i as int] == candidates@[k]);
                    }
                }
                assert forall|j: int| 0 <= j < i + 1 && fold_candidate(*graph, #[trigger] all@[j].0) implies candidates@.contains(all@[j]) by {
                    if j < i {
                        let k = choose|k: int| 0 <= k < before.len() && before[k] == all@[j];
                        assert(candidates@[k] == all@[j]);
                    } else {
                        assert(candidates@[candidates@.len() - 1] == all@[j]);
                    }
                }
            }
            i = i + 1;
        }
        proof {
            assert forall|x: u32| fold_candidate(*graph, x) implies candidates@.contains(NodeId(x)) by {
                let j = choose|j: int| 0 <= j < all@.len() && all@[j] == NodeId(x);
                assert(fold_candidate(*graph, all@[j].0));
            }
        }
        Ok(candidates)
    }

    /// Whether the candidate folds; dividing by zero is an error.
    fn try_fold_node(&self, graph: &Graph, node_id: NodeId) -> (r: Result<bool, PassError>)
        requires
            graph.wf(),
            fold_candidate(*graph, node_id.0),
        ensures
            !divides_by_zero(*graph, node_id.0) ==> r == Ok::<bool, PassError>(folds(*graph, node_id.0)),
            divides_by_zero(*graph, node_id.0) ==> (r matches Err(PassError::ConstantFoldingFailed { reason })
                && reason@ == "Division by zero"@),
    {
        let node = graph.node(node_id).unwrap();
        proof {
            let n = graph.node_map()[node_id.0];
            if n.inputs@.len() == 2 {
                assert(graph.value_map().contains_key(n.inputs@[0].0));
                assert(graph.value_map().contains_key(n.inputs@[1].0));
            }
        }
        match node.op_kind {
            OpKind::Identity => {
                proof {
                    assert(graph.node_map()[node_id.0].op_kind is Identity);
                    assert(!divides_by_zero(*graph, node_id.0));
                }
                Ok(node.inputs.len() == 1 && node.outputs.len() == 1)
            },
            OpKind::Add => {
                proof {
                    reveal_strlit("add");
                    reveal_strlit("sub");
                    reveal_strlit("mul");
                    reveal_strlit("div");
                    assert("add"@[0] != "div"@[0] && "sub"@[0] != "div"@[0] && "mul"@[0] != "div"@[0]);
                }
                let r = self.fold_arithmetic(graph, node_id, "add");
                assert(r == Ok::<bool, PassError>(folds(*graph, node_id.0)));
                r
            },
            OpKind::Sub => {
                proof {
                    reveal_strlit("add");
                    reveal_strlit("sub");
                    reveal_strlit("mul");
                    reveal_strlit("div");
                    assert("add"@[0] != "div"@[0] && "sub"@[0] != "div"@[0] && "mul"@[0] != "div"@[0]);
                }
                let r = self.fold_arithmetic(graph, node_id, "sub");
                assert(r == Ok::<bool, PassError>(folds(*graph, node_id.0)));
                r
            },
            OpKind::Mul => {
                proof {
                    reveal_strlit("add");
                    reveal_strlit("sub");
                    reveal_strlit("mul");
                    reveal_strlit("div");
                    assert("add"@[0] != "div"@[0] && "sub"@[0] != "div"@[0] && "mul"@[0] != "div"@[0]);
                }
                let r = self.fold_arithmetic(graph, node_id, "mul");
                assert(r == Ok::<bool, PassError>(folds(*graph, node_id.0)));
                r
            },
            OpKind::Div => {
                let r = self.fold_arithmetic(graph, node_id, "div");
                assert(!divides_by_zero(*graph, node_id.0) ==> r == Ok::<bool, PassError>(folds(*graph, node_id.0)));
                r
            },
            OpKind::Relu => self.fold_relu(graph, node_id),
            _ => Ok(false),
        }
    }

    /// Whether binary node `node_id` folds under operation `op` ("add",
    /// "sub", "mul" or "div"): it does when both inputs are scalar 32-bit
    /// floats and `op` is one of those, except that dividing by zero is an
    /// error; a missing input tensor is an error too.
    fn fold_arithmetic(&self, graph: &Graph, node_id: NodeId, op: &str) -> (r: Result<bool, PassError>)
        requires
            graph.wf(),
            graph.node_map().contains_key(node_id.0),
        ensures
            match arith_outcome(*graph, node_id.0, op@) {
                Ok(b) => r == Ok::<bool, PassError>(b),
                Err(t) => r matches Err(PassError::ConstantFoldingFailed { reason }) && reason@ == t,
            },
    {
        let node = graph.node(node_id).unwrap();
        if node.inputs.len() != 2 {
            return Ok(false);
        }
        let input1 = match graph.tensor(node.inputs[0]) {
            Some(t) => t,
            None => {
                return Err(PassError::ConstantFoldingFailed { reason: "First input tensor not found".to_string() });
            },
        };
        let input2 = match graph.tensor(node.inputs[1]) {
            Some(t) => t,
            None => {
                return Err(PassError::ConstantFoldingFailed { reason: "Second input tensor not found".to_string() });
            },
        };
        match (&input1.data, &input2.data) {
            (Some(TensorData::Float32(data1)), Some(TensorData::Float32(data2))) => {
                if data1.len() == 1 && data2.len() == 1 {
                    let divisor = data2[0];
                    if str_eq(op, "div") {
                        if divisor == 0 || divisor == 0x8000_0000 {
                            return Err(PassError::ConstantFoldingFailed { reason: "Division by zero".to_string() });
                        }
                        Ok(true)
                    } else if str_eq(op, "add") || str_eq(op, "sub") || str_eq(op, "mul") {
                        Ok(true)
                    } else {
                        Ok(false)
                    }
                } else {
                    Ok(false)
                }
            },
            _ => Ok(false),
        }
    }

    /// Whether a Relu node on a 32-bit float tensor folds.
    fn fold_relu(&self, graph: &Graph, node_id: NodeId) -> (r: Result<bool, PassError>)
        requires
            graph.wf(),
            fold_candidate(*graph, node_id.0),
        ensures
            r == Ok::<bool, PassError>({
                let n = graph.node_map()[node_id.0];
                &&& n.inputs@.len() == 1
                &&& graph.value_map().contains_key(n.inputs@[0].0)
                &&& graph.value_map()[n.inputs@[0].0].data matches Some(TensorData::Float32(_))
            }),
    {
        let node = graph.node(node_id).unwrap();
        if node.inputs.len() != 1 {
            return Ok(false);
        }
        let input = match graph.tensor(node.inputs[0]) {
            Some(t) => t,
            None => {
                return Err(PassError::ConstantFoldingFailed { reason: "Input tensor not found".to_string() });
            },
        };
        match &input.data {
            Some(TensorData::Float32(_)) => Ok(true),
            _ => Ok(false),
        }
    }
}

/// The text reporting that node `id` is missing.
fn missing_node(id: NodeId) -> (s: String)
    ensures
        s@ == missing_node_text(id),
{
    let d = decimal(id.0 as usize);
    let mut s = prefixed("Node NodeId(", d.as_str());
    s.append(") not found");
    s
}

impl Default for ConstantFolding {
    fn default() -> (p: Self) {
        Self::new()
    }
}

impl ConstantFolding {
    /// The name of the pass.
    pub fn pass_name(&self) -> (name: String)
        ensures
            name@ == "ConstantFolding"@,
    {
        "ConstantFolding".to_string()
    }

    /// The candidates that fold, in increasing index order: the nodes whose
    /// inputs are all constants and which can be replaced by one constant;
    /// fails when some candidate divides a scalar by zero. The graph is only
    /// read: computing each folded value is floating-point arithmetic, which
    /// the caller does before handing the value to
    /// `Graph::replace_with_constant`.
    pub fn foldable_nodes(&self, graph: &Graph) -> (r: Result<Vec<NodeId>, PassError>)
        requires
            graph.wf(),
        ensures
            r is Err <==> exists|k: u32| fold_candidate(*graph, k) && divides_by_zero(*graph, k),
            r matches Err(e) ==> e matches PassError::ConstantFoldingFailed { reason } && reason@ == "Division by zero"@,
            r matches Ok(ids) ==> {
                &&& forall|a: int, b: int| 0 <= a < b < ids@.len() ==> ids@[a].0 < ids@[b].0
                &&& forall|x: u32| #[trigger] ids@.contains(NodeId(x)) <==> folded_nodes(*graph).contains(x)
            },
    {
        let candidates = self.find_candidates(graph)?;
        let g = graph;
        let ghost mut seen: Set<u32> = Set::empty();
        let mut ids: Vec<NodeId> = Vec::new();
        let mut i: usize = 0;
        while i < candidates.len()
            invariant
                g.wf(),
                *g == *graph,
                i <= candidates@.len(),
                forall|a: int, b: int| 0 <= a < b < candidates@.len() ==> candidates@[a].0 < candidates@[b].0,
                forall|k: int| 0 <= k < candidates@.len() ==> fold_candidate(*g, #[trigger] candidates@[k].0),
                forall|x: u32| fold_candidate(*g, x) ==> candidates@.contains(NodeId(x)),
                forall|k: int| 0 <= k < i ==> !divides_by_zero(*g, #[trigger] candidates@[k].0),
                seen == Set::new(|x: u32| exists|k: int| 0 <= k < i && candidates@[k].0 == x && folds(*g, x)),
                forall|x: u32| #[trigger] ids@.contains(NodeId(x)) <==> seen.contains(x),
                forall|a: int, b: int| 0 <= a < b < ids@.len() ==> ids@[a].0 < ids@[b].0,
            decreases candidates@.len() - i,
        {
            let node_id = candidates[i];
            let folded = match self.try_fold_node(g, node_id) {
                Ok(f) => f,
                Err(e) => {
                    proof {
                        assert(fold_candidate(*g, candidates@[i as int].0));
                        assert(fold_candidate(*graph, node_id.0) && divides_by_zero(*graph, node_id.0));
                    }
                    return Err(e);
                },
            };
            proof {
                let next = Set::new(|x: u32| exists|k: int| 0 <= k < i + 1 && candidates@[k].0 == x && folds(*g, x));
                if folded {
                    assert(next =~= seen.insert(node_id.0));
                    seen = seen.insert(node_id.0);
                } else {
                    assert(next =~= seen);
                }
            }
            if folded {
                let ghost before = ids@;
                ids.push(node_id);
                proof {
                    assert forall|x: u32| #[trigger] ids@.contains(NodeId(x)) <==> seen.contains(x) by {
                        if ids@.contains(NodeId(x)) {
                            let k = choose|k: int| 0 <= k < ids@.len() && ids@[k] == NodeId(x);
                            if k < before.len() {
                                assert(before.contains(NodeId(x)));
                            }
                        }
                        if seen.contains(x) && x != node_id.0 {
                            assert(before.contains(NodeId(x)));
                            let k = choose|k: int| 0 <= k < before.len() && before[k] == NodeId(x);
                            assert(ids@[k] == NodeId(x));
                        }
                        if x == node_id.0 {
                            assert(ids@[ids@.len() - 1] == NodeId(x));
                        }
                    }
                    assert forall|a: int, b: int| 0 <= a < b < ids@.len() implies ids@[a].0 < ids@[b].0 by {
                        if b == ids@.len() - 1 {
                            assert(before.contains(ids@[a]));
                            assert(seen.contains(ids@[a].0));
                            let k = choose|k: int| 0 <= k < i && candidates@[k].0 == ids@[a].0 && folds(*g, ids@[a].0);
                            assert(candidates@[k].0 < candidates@[i as int].0);
                        } else {
                            assert(before[a] == ids@[a] && before[b] == ids@[b]);
                        }
                    }
                }
            }
            i = i + 1;
        }
        proof {
            assert forall|x: u32| #[trigger] ids@.contains(NodeId(x)) <==> folded_nodes(*g).contains(x) by {
                if folded_nodes(*g).contains(x) {
                    assert(candidates@.contains(NodeId(x)));
                    let k = choose|k: int| 0 <= k < candidates@.len() && candidates@[k] == NodeId(x);
                    assert(candidates@[k].0 == x);
                }
            }
            assert forall|x: u32| !(fold_candidate(*g, x) && divides_by_zero(*g, x)) by {
                if fold_candidate(*g, x) {
                    let k = choose|k: int| 0 <= k < candidates@.len() && candidates@[k] == NodeId(x);
                    assert(!divides_by_zero(*g, candidates@[k].0));
                }
            }
        }
        Ok(ids)
    }
}

/// In a strictly increasing sequence, the element at position `k` is at
/// least `k`.
proof fn lemma_sorted_at_least_index(ids: Seq<NodeId>, k: int)
    requires
        forall|a: int, b: int| 0 <= a < b < ids.len() ==> ids[a].0 < ids[b].0,
        0 <= k < ids.len(),
    ensures
        k <= ids[k].0,
    decreases k,
{
    if k > 0 {
        lemma_sorted_at_least_index(ids, k - 1);
    }
}

} // verus!

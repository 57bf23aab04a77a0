//! Composing optimization passes and running them in sequence.

use vstd::prelude::*;
use crate::graph::store::Graph;
use crate::graph::op_kind::OpKind;
use crate::passes::eliminations::bypass::{
    BypassTarget, lemma_bypassing_shrinks_to, lemma_shrunk_to_refl, lemma_shrunk_to_trans,
    lemma_shrunk_to_weaken, none_eliminable, same_node_shape, shrunk_by_bypassing, shrunk_to,
    swept_by_bypassing,
};
use crate::passes::eliminations::eliminate_identity::EliminateIdentity;
use crate::passes::eliminations::eliminate_nop_transpose::{
    EliminateNopTranspose, transposes_swept,
};
use crate::passes::error::PassError;
use crate::passes::traits::OptimizationPass;
use crate::utils::arena::count_occupied;
use crate::utils::text::{decimal, decimal_text, prefixed};

verus! {

/// Individual optimization pass implementations.
#[derive(Debug)]
pub enum Pass {
    EliminateIdentity(EliminateIdentity),
    EliminateNopTranspose(EliminateNopTranspose),
    /// Placeholder for testing: makes no change.
    Placeholder,
}

/// The kinds of node a pass may remove.
pub open spec fn pass_removes(p: Pass, k: OpKind) -> bool {
    match p {
        Pass::EliminateIdentity(_) => k is Identity,
        Pass::EliminateNopTranspose(_) => k is Transpose,
        Pass::Placeholder => false,
    }
}

/// The kinds of node some pass of the manager may remove.
pub open spec fn manager_removes(m: PassManager, k: OpKind) -> bool {
    exists|i: int| 0 <= i < m.pass_seq().len() && pass_removes(#[trigger] m.pass_seq()[i], k)
}

/// What running pass `p` on `old` gives: the Identity elimination sweeps
/// the Identity nodes once in index order, bypassing each that can be, after
/// which none can be; the transpose elimination sweeps the Transpose nodes
/// once, bypassing the no-ops; the placeholder changes nothing.
pub open spec fn pass_applied(p: Pass, old: Graph, new: Graph) -> bool {
    match p {
        Pass::EliminateIdentity(_) => swept_by_bypassing(BypassTarget::Identity, old, new)
            && shrunk_by_bypassing(BypassTarget::Identity, old, new)
            && none_eliminable(BypassTarget::Identity, new),
        Pass::EliminateNopTranspose(_) => transposes_swept(old, new),
        Pass::Placeholder => new == old,
    }
}

/// `gs` are the graphs that running the passes `ps` in order passes
/// through, one step per pass.
pub open spec fn passes_trace(ps: Seq<Pass>, gs: Seq<Graph>) -> bool {
    &&& gs.len() == ps.len() + 1
    &&& forall|i: int| 0 <= i < ps.len() ==> pass_applied(#[trigger] ps[i], gs[i], gs[i + 1])
}

/// `new` is what running the passes `ps` in order on `old` gives.
pub open spec fn passes_applied(ps: Seq<Pass>, old: Graph, new: Graph) -> bool {
    exists|gs: Seq<Graph>| #[trigger] passes_trace(ps, gs) && gs[0] == old && gs.last() == new
}

impl OptimizationPass for Pass {
    fn pass_name(&self) -> (name: String)
        ensures
            name@ == pass_label(*self),
    {
        match self {
            Pass::EliminateIdentity(p) => p.pass_name(),
            Pass::EliminateNopTranspose(p) => p.pass_name(),
            Pass::Placeholder => "Placeholder".to_string(),
        }
    }

    /// Runs the wrapped pass; every pass here succeeds, removes as many
    /// nodes as it reports, and does what `pass_applied` says.
    fn execute(&self, graph: &mut Graph) -> (r: Result<u32, PassError>)
        ensures
            r is Ok,
            count_occupied(final(graph).node_arena().slots()) + r->Ok_0 == count_occupied(
                old(graph).node_arena().slots(),
            ),
            self is Placeholder ==> r == Ok::<u32, PassError>(0u32),
            pass_applied(*self, *old(graph), *final(graph)),
            shrunk_to(*old(graph), *final(graph), |k: OpKind| pass_removes(*self, k)),
    {
        match self {
            Pass::EliminateIdentity(p) => {
                let r = p.execute(graph);
                proof {
                    lemma_bypassing_shrinks_to(BypassTarget::Identity, *old(graph), *graph, |k: OpKind| pass_removes(*self, k));
                }
                r
            },
            Pass::EliminateNopTranspose(p) => {
                let r = p.execute(graph);
                proof {
                    lemma_bypassing_shrinks_to(BypassTarget::Transpose, *old(graph), *graph, |k: OpKind| pass_removes(*self, k));
                }
                r
            },
            Pass::Placeholder => {
                proof {
                    lemma_shrunk_to_refl(*graph, |k: OpKind| pass_removes(*self, k));
                }
                Ok(0)
            },
        }
    }
}

/// The name a pass reports.
pub open spec fn pass_label(p: Pass) -> Seq<char> {
    match p {
        Pass::EliminateIdentity(_) => "EliminateIdentity"@,
        Pass::EliminateNopTranspose(_) => "EliminateNopTranspose"@,
        Pass::Placeholder => "Placeholder"@,
    }
}

/// The text reporting that the pass `name` at `index` failed with `reason`.
pub open spec fn failure_text(name: Seq<char>, index: usize, reason: Seq<char>) -> Seq<char> {
    "Pass '"@ + name + "' (index "@ + decimal_text(index) + ") failed: "@ + reason
}

/// Builder for composing and executing optimization passes.
#[derive(Debug)]
pub struct PassManager {
    passes: Vec<Pass>,
}

impl PassManager {
    /// The passes, in the order they run.
    pub closed spec fn pass_seq(&self) -> Seq<Pass> {
        self.passes@
    }

    /// Create a new empty pass manager.
    pub fn new() -> (m: Self)
        ensures
            m.pass_seq() == Seq::<Pass>::empty(),
    {
        PassManager { passes: Vec::new() }
    }

    /// Add a pass to the manager (chainable).
    pub fn add_pass(self, pass: Pass) -> (m: Self)
        ensures
            m.pass_seq() == self.pass_seq().push(pass),
    {
        let mut m = self;
        m.passes.push(pass);
        m
    }

    /// The passes, in the order they run.
    pub fn passes(&self) -> (r: &[Pass])
        ensures
            r@ == self.pass_seq(),
    {
        self.passes.as_slice()
    }

    /// Executes all passes on the graph in sequence and returns the total
    /// number of changes; every pass succeeds, and the total is the number
    /// of nodes removed.
    pub fn execute_all(&self, graph: &mut Graph) -> (r: Result<u32, PassError>)
        requires
            old(graph).wf(),
            old(graph).node_arena().slots().len() <= u32::MAX,
        ensures
            final(graph).wf(),
            final(graph).node_arena().slots().len() <= u32::MAX,
            r is Ok,
            count_occupied(final(graph).node_arena().slots()) + r->Ok_0 == count_occupied(
                old(graph).node_arena().slots(),
            ),
            shrunk_to(*old(graph), *final(graph), |k: OpKind| manager_removes(*self, k)),
            passes_applied(self.pass_seq(), *old(graph), *final(graph)),
    {
        let ghost mut gs: Seq<Graph> = seq![*graph];
        proof {
            crate::utils::arena::lemma_count_occupied_bound(old(graph).node_arena().slots());
            lemma_shrunk_to_refl(*graph, |k: OpKind| manager_removes(*self, k));
        }
        let mut total_changes: u32 = 0;
        let mut index: usize = 0;
        while index < self.passes.len()
            invariant
                graph.wf(),
                graph.node_arena().slots().len() <= u32::MAX,
                index <= self.passes@.len(),
                count_occupied(old(graph).node_arena().slots()) <= u32::MAX,
                count_occupied(graph.node_arena().slots()) + total_changes == count_occupied(
                    old(graph).node_arena().slots(),
                ),
                shrunk_to(*old(graph), *graph, |k: OpKind| manager_removes(*self, k)),
                passes_trace(self.pass_seq().take(index as int), gs),
                gs[0] == *old(graph),
                gs.last() == *graph,
            decreases self.passes@.len() - index,
        {
            let pass = &self.passes[index];
            let ghost before = *graph;
            let changes = match pass.execute(graph) {
                Ok(c) => c,
                Err(e) => {
                    let reason = e.message();
                    let name = pass.pass_name();
                    let message = failure_message(name.as_str(), index, reason.as_str());
                    return Err(PassError::ExecutionFailed { message });
                },
            };
            total_changes = total_changes + changes;
            proof {
                let p = self.pass_seq()[index as int];
                assert forall|k: OpKind| #[trigger] pass_removes(p, k) implies manager_removes(*self, k) by {
                    assert(pass_removes(self.pass_seq()[index as int], k));
                }
                lemma_shrunk_to_weaken(before, *graph, |k: OpKind| pass_removes(p, k), |k: OpKind| manager_removes(*self, k));
                lemma_shrunk_to_trans(*old(graph), before, *graph, |k: OpKind| manager_removes(*self, k));
                let prev = gs;
                gs = gs.push(*graph);
                let ps = self.pass_seq().take(index + 1);
                assert forall|i: int| 0 <= i < ps.len() implies pass_applied(#[trigger] ps[i], gs[i], gs[i + 1]) by {
                    if i < index {
                        assert(ps[i] == self.pass_seq().take(index as int)[i]);
                        assert(pass_applied(self.pass_seq().take(index as int)[i], prev[i], prev[i + 1]));
                    } else {
                        assert(ps[i] == p);
                    }
                }
            }
            index = index + 1;
        }
        proof {
            assert(self.pass_seq().take(self.pass_seq().len() as int) =~= self.pass_seq());
            assert(passes_trace(self.pass_seq(), gs));
        }
        Ok(total_changes)
    }
}

/// The text reporting that the pass `name` at `index` failed with `reason`.
fn failure_message(name: &str, index: usize, reason: &str) -> (s: String)
    ensures
        s@ == failure_text(name@, index, reason@),
{
    let mut s = prefixed("Pass '", name);
    s.append("' (index ");
    let d = decimal(index);
    s.append(d.as_str());
    s.append(") failed: ");
    s.append(reason);
    s
}

impl Default for PassManager {
    fn default() -> (m: Self) {
        Self::new()
    }
}

} // verus!

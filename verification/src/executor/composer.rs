//! Orchestrating optimization passes to a fixed point, with statistics.

use vstd::prelude::*;
use crate::executor::monitor::{
    instant_elapsed, instant_now, system_new, system_refresh_memory, system_used_memory,
};
use crate::graph::objects::{Node, NodeId, ValueId};
use crate::graph::store::Graph;
use crate::passes::error::PassError;
use crate::graph::op_kind::OpKind;
use crate::passes::eliminations::bypass::{lemma_shrunk_to_refl, lemma_shrunk_to_trans, shrunk_to};
use crate::passes::manager::{manager_removes, passes_applied, Pass, PassManager};
use crate::utils::arena::count_occupied;
use crate::utils::text::{decimal, decimal_text, prefixed};

verus! {

/// Statistics of one iteration of the passes.
#[derive(Debug)]
pub struct PassStatistics {
    pub pass_name: String,
    /// Time the iteration took, in nanoseconds.
    pub execution_time: u128,
    pub changes_made: u32,
    pub memory_before: u64,
    pub memory_after: u64,
    pub nodes_before: usize,
    pub nodes_after: usize,
    pub edges_before: usize,
    pub edges_after: usize,
    pub success: bool,
    pub error_message: Option<String>,
}

/// Overall optimization statistics.
#[derive(Debug)]
pub struct OptimizationStatistics {
    /// Time the whole run took, in nanoseconds.
    pub total_execution_time: u128,
    pub total_changes: u32,
    pub total_passes: usize,
    pub successful_passes: usize,
    pub failed_passes: usize,
    pub pass_statistics: Vec<PassStatistics>,
    pub memory_peak: u64,
    /// (nodes, edges)
    pub initial_graph_size: (usize, usize),
    /// (nodes, edges)
    pub final_graph_size: (usize, usize),
}

impl OptimizationStatistics {
    /// Statistics of a run that has not started: every count is zero and
    /// no iteration is recorded.
    pub fn new() -> (s: Self)
        ensures
            s.total_changes == 0,
            s.total_passes == 0,
            s.successful_passes == 0,
            s.failed_passes == 0,
            s.pass_statistics@ == Seq::<PassStatistics>::empty(),
            s.memory_peak == 0,
            s.initial_graph_size == (0usize, 0usize),
            s.final_graph_size == (0usize, 0usize),
            s.total_execution_time == 0,
    {
        OptimizationStatistics {
            total_execution_time: 0,
            total_changes: 0,
            total_passes: 0,
            successful_passes: 0,
            failed_passes: 0,
            pass_statistics: Vec::new(),
            memory_peak: 0,
            initial_graph_size: (0, 0),
            final_graph_size: (0, 0),
        }
    }
}

impl Clone for PassStatistics {
    fn clone(&self) -> (s: Self) {
        PassStatistics {
            pass_name: self.pass_name.clone(),
            execution_time: self.execution_time,
            changes_made: self.changes_made,
            memory_before: self.memory_before,
            memory_after: self.memory_after,
            nodes_before: self.nodes_before,
            nodes_after: self.nodes_after,
            edges_before: self.edges_before,
            edges_after: self.edges_after,
            success: self.success,
            error_message: self.error_message.clone(),
        }
    }
}

impl Clone for OptimizationStatistics {
    fn clone(&self) -> (s: Self) {
        OptimizationStatistics {
            total_execution_time: self.total_execution_time,
            total_changes: self.total_changes,
            total_passes: self.total_passes,
            successful_passes: self.successful_passes,
            failed_passes: self.failed_passes,
            pass_statistics: self.pass_statistics.clone(),
            memory_peak: self.memory_peak,
            initial_graph_size: (self.initial_graph_size.0, self.initial_graph_size.1),
            final_graph_size: (self.final_graph_size.0, self.final_graph_size.1),
        }
    }
}

impl Default for OptimizationStatistics {
    fn default() -> (s: Self)
        ensures
            s.total_changes == 0,
            s.total_passes == 0,
            s.successful_passes == 0,
            s.failed_passes == 0,
            s.pass_statistics@ == Seq::<PassStatistics>::empty(),
            s.memory_peak == 0,
            s.initial_graph_size == (0usize, 0usize),
            s.final_graph_size == (0usize, 0usize),
            s.total_execution_time == 0,
    {
        Self::new()
    }
}

/// Configuration for the optimization composer.
#[derive(Debug, Clone, Copy)]
pub struct ComposerConfig {
    pub show_progress: bool,
    pub show_detailed_progress: bool,
    pub collect_memory_stats: bool,
    pub max_iterations: Option<usize>,
    /// Stop once an iteration makes no more changes than this.
    pub convergence_threshold: u32,
}

impl Default for ComposerConfig {
    /// Progress shown, no detail, memory collected, no iteration limit, and
    /// a run stops at the first iteration without changes.
    fn default() -> (c: Self)
        ensures
            c.show_progress,
            !c.show_detailed_progress,
            c.collect_memory_stats,
            c.max_iterations is None,
            c.convergence_threshold == 0,
    {
        ComposerConfig {
            show_progress: true,
            show_detailed_progress: false,
            collect_memory_stats: true,
            max_iterations: None,
            convergence_threshold: 0,
        }
    }
}

/// The name recorded for iteration `n`.
pub open spec fn iteration_name(n: usize) -> Seq<char> {
    "Iteration-"@ + decimal_text(n)
}

/// The name recorded for failed iteration `n`.
pub open spec fn failed_iteration_name(n: usize) -> Seq<char> {
    "Iteration-"@ + decimal_text(n) + "-FAILED"@
}

/// The message of a failed iteration `n` whose passes reported `reason`.
pub open spec fn iteration_failure_text(n: usize, reason: Seq<char>) -> Seq<char> {
    "Iteration "@ + decimal_text(n) + " failed: "@ + reason
}

/// The record of a successful iteration `n` that made `changes` changes.
pub open spec fn iteration_record(s: PassStatistics, n: usize, changes: u32) -> bool {
    &&& s.pass_name@ == iteration_name(n)
    &&& s.changes_made == changes
    &&& s.success
    &&& s.error_message is None
}

/// Composer for orchestrating optimization passes with statistics.
#[derive(Debug)]
pub struct OptimizationComposer {
    pass_manager: PassManager,
    pub config: ComposerConfig,
    system: Option<sysinfo::System>,
}

impl OptimizationComposer {
    /// The configuration.
    pub closed spec fn settings(&self) -> ComposerConfig {
        self.config
    }

    /// The pass manager whose passes each iteration runs.
    pub closed spec fn manager(&self) -> PassManager {
        self.pass_manager
    }

    /// Create a new composer with the given pass manager and the default
    /// configuration.
    pub fn new(pass_manager: PassManager) -> (c: Self)
        ensures
            c.manager() == pass_manager,
            c.settings().show_progress,
            !c.settings().show_detailed_progress,
            c.settings().collect_memory_stats,
            c.settings().max_iterations is None,
            c.settings().convergence_threshold == 0,
    {
        Self::with_config(pass_manager, ComposerConfig::default())
    }

    /// Create a new composer with custom configuration.
    pub fn with_config(pass_manager: PassManager, config: ComposerConfig) -> (c: Self)
        ensures
            c.manager() == pass_manager,
            c.settings() == config,
    {
        let mut system = system_new();
        match &mut system {
            Some(s) => system_refresh_memory(s),
            None => {},
        }
        OptimizationComposer { pass_manager, config, system }
    }

    /// Current memory usage in bytes: zero when memory statistics are not
    /// collected.
    fn get_memory_usage(&mut self) -> (m: u64)
        ensures
            final(self).manager() == old(self).manager(),
            final(self).settings() == old(self).settings(),
            !old(self).settings().collect_memory_stats ==> m == 0,
            old(self).system is None ==> m == 0,
    {
        if !self.config.collect_memory_stats {
            return 0;
        }
        match &mut self.system {
            Some(s) => {
                system_refresh_memory(s);
                system_used_memory(s)
            },
            None => 0,
        }
    }

    /// Graph size as (nodes, edges): the live nodes, and the inputs of live
    /// nodes that another node produces (capped at `usize::MAX`).
    fn get_graph_size(graph: &Graph) -> (r: (usize, usize))
        requires
            graph.wf(),
        ensures
            r == graph_size(*graph),
    {
        let nodes = graph.node_count();
        let slots = graph.node_slot_count();
        let ghost all = graph.node_arena().slots();
        let mut edges: usize = 0;
        let mut i: usize = 0;
        while i < slots
            invariant
                graph.wf(),
                all == graph.node_arena().slots(),
                slots == all.len(),
                i <= slots,
                edges == capped(edge_total(all.take(i as int), graph.producers()) as int),
            decreases slots - i,
        {
            proof {
                assert(all.take(i + 1).drop_last() =~= all.take(i as int));
                assert(all.take(i + 1).last() == all[i as int]);
            }
            let ghost before = edges;
            match graph.node(NodeId(i as u32)) {
                Some(node) => {
                    let mut j: usize = 0;
                    while j < node.inputs.len()
                        invariant
                            j <= node.inputs@.len(),
                            edges == capped(before + produced_inputs(node.inputs@.take(j as int), graph.producers())),
                        decreases node.inputs@.len() - j,
                    {
                        proof {
                            assert(node.inputs@.take(j + 1).drop_last() =~= node.inputs@.take(j as int));
                        }
                        if graph.producer(node.inputs[j]).is_some() {
                            if edges < usize::MAX {
                                edges = edges + 1;
                            }
                        }
                        j = j + 1;
                    }
                    proof {
                        assert(node.inputs@.take(node.inputs@.len() as int) =~= node.inputs@);
                        assert(all[i as int] == Some(*node));
                    }
                },
                None => {
                    proof {
                        assert(all[i as int] is None);
                    }
                },
            }
            i = i + 1;
        }
        proof {
            assert(all.take(slots as int) =~= all);
        }
        (nodes, edges)
    }

    /// Execute optimization with fixed-point iteration until convergence.
    /// This is the main entry point for optimization.
    pub fn execute(&mut self, graph: &mut Graph) -> (r: Result<OptimizationStatistics, PassError>)
        requires
            old(graph).wf(),
            old(graph).node_arena().slots().len() <= u32::MAX,
            count_occupied(old(graph).node_arena().slots()) < usize::MAX,
        ensures
            final(graph).wf(),
            final(graph).node_arena().slots().len() <= u32::MAX,
            final(self).manager() == old(self).manager(),
            final(self).settings() == old(self).settings(),
            r matches Ok(s) && converged_run(old(self).settings(), s)
                && s.total_changes + count_occupied(final(graph).node_arena().slots())
                    == count_occupied(old(graph).node_arena().slots()),
            shrunk_to(*old(graph), *final(graph), |k: OpKind| manager_removes(old(self).manager(), k)),
            r matches Ok(s) ==> ran_iterations(old(self).manager().pass_seq(), s.pass_statistics@, *old(graph), *final(graph)),
            r matches Ok(s) ==> s.initial_graph_size == graph_size(*old(graph))
                && s.final_graph_size == graph_size(*final(graph)),
    {
        self.execute_to_convergence(graph)
    }

    /// Execute optimization with fixed-point iteration: run all passes in
    /// sequence, and repeat until an iteration makes no more changes than
    /// the convergence threshold, or the iteration limit is reached.
    pub fn execute_to_convergence(&mut self, graph: &mut Graph) -> (r: Result<OptimizationStatistics, PassError>)
        requires
            old(graph).wf(),
            old(graph).node_arena().slots().len() <= u32::MAX,
            count_occupied(old(graph).node_arena().slots()) < usize::MAX,
        ensures
            final(graph).wf(),
            final(graph).node_arena().slots().len() <= u32::MAX,
            final(self).manager() == old(self).manager(),
            final(self).settings() == old(self).settings(),
            r matches Ok(s) && converged_run(old(self).settings(), s)
                && s.total_changes + count_occupied(final(graph).node_arena().slots())
                    == count_occupied(old(graph).node_arena().slots()),
            shrunk_to(*old(graph), *final(graph), |k: OpKind| manager_removes(old(self).manager(), k)),
            r matches Ok(s) ==> ran_iterations(old(self).manager().pass_seq(), s.pass_statistics@, *old(graph), *final(graph)),
            r matches Ok(s) ==> s.initial_graph_size == graph_size(*old(graph))
                && s.final_graph_size == graph_size(*final(graph)),
    {
        let mut stats = OptimizationStatistics::new();
        let ghost mut gs: Seq<Graph> = seq![*graph];
        let start_time = instant_now();
        let mut iteration: usize = 0;
        let mut total_changes: u32 = 0;

        stats.initial_graph_size = Self::get_graph_size(graph);
        let initial_memory = self.get_memory_usage();
        stats.memory_peak = initial_memory;
        let ghost start = count_occupied(old(graph).node_arena().slots());
        proof {
            crate::utils::arena::lemma_count_occupied_bound(old(graph).node_arena().slots());
            lemma_shrunk_to_refl(*graph, |k: OpKind| manager_removes(old(self).manager(), k));
        }

        loop
            invariant_except_break
                iteration <= total_changes,
                running_records(self.config, stats.pass_statistics@),
                self.config.max_iterations matches Some(m) ==> iteration == 0 || iteration < m,
            invariant
                graph.wf(),
                graph.node_arena().slots().len() <= u32::MAX,
                self.manager() == old(self).manager(),
                self.settings() == old(self).settings(),
                start == count_occupied(old(graph).node_arena().slots()),
                start < usize::MAX,
                start <= u32::MAX,
                total_changes + count_occupied(graph.node_arena().slots()) == start,
                shrunk_to(*old(graph), *graph, |k: OpKind| manager_removes(old(self).manager(), k)),
                iteration_trace(old(self).manager().pass_seq(), stats.pass_statistics@, gs),
                gs[0] == *old(graph),
                gs.last() == *graph,
                iteration <= total_changes + 1,
                stats.initial_graph_size == graph_size(*old(graph)),
                stats.total_changes == 0,
                stats.failed_passes == 0,
                stats.pass_statistics@.len() == iteration,
                sum_changes(stats.pass_statistics@) == total_changes,
                memory_peak_bounds(self.config, stats.memory_peak, stats.pass_statistics@),
            ensures
                iteration >= 1,
                running_records(self.config, stats.pass_statistics@.drop_last()),
                iteration_record(stats.pass_statistics@.last(), iteration, stats.pass_statistics@.last().changes_made),
                stats.pass_statistics@.last().changes_made <= self.config.convergence_threshold
                    || self.config.max_iterations == Some(iteration)
                    || (self.config.max_iterations == Some(0usize) && iteration == 1),
                self.config.max_iterations matches Some(m) ==> iteration <= m || iteration == 1,
            decreases count_occupied(graph.node_arena().slots()),
        {
            iteration = iteration + 1;

            let iteration_start = instant_now();
            let memory_before = self.get_memory_usage();
            let graph_size_before = Self::get_graph_size(graph);

            let ghost before = count_occupied(graph.node_arena().slots());
            let ghost records = stats.pass_statistics@;
            let ghost graph_before = *graph;
            let iteration_changes = self.execute_pass_sequence(graph, iteration, &mut stats)?;
            proof {
                lemma_shrunk_to_trans(*old(graph), graph_before, *graph,
                    |k: OpKind| manager_removes(old(self).manager(), k));
            }

            let iteration_duration = instant_elapsed(&iteration_start);
            let memory_after = self.get_memory_usage();
            let graph_size_after = Self::get_graph_size(graph);

            let name = iteration_label(iteration);
            let iteration_stats = PassStatistics {
                pass_name: name,
                execution_time: iteration_duration,
                changes_made: iteration_changes,
                memory_before,
                memory_after,
                nodes_before: graph_size_before.0,
                nodes_after: graph_size_after.0,
                edges_before: graph_size_before.1,
                edges_after: graph_size_after.1,
                success: true,
                error_message: None,
            };
            stats.pass_statistics.push(iteration_stats);
            total_changes = total_changes + iteration_changes;

            if memory_after > stats.memory_peak {
                stats.memory_peak = memory_after;
            }
            proof {
                lemma_sum_changes_push(records, stats.pass_statistics@[records.len() as int]);
                assert(stats.pass_statistics@ == records.push(stats.pass_statistics@[records.len() as int]));
                let prev = gs;
                gs = gs.push(*graph);
                let ps = old(self).manager().pass_seq();
                assert forall|k: int| 0 <= k < stats.pass_statistics@.len() implies {
                    &&& passes_applied(ps, gs[k], gs[k + 1])
                    &&& (#[trigger] stats.pass_statistics@[k]).changes_made + count_occupied(gs[k + 1].node_arena().slots())
                        == count_occupied(gs[k].node_arena().slots())
                    &&& (stats.pass_statistics@[k].nodes_before, stats.pass_statistics@[k].edges_before) == graph_size(gs[k])
                    &&& (stats.pass_statistics@[k].nodes_after, stats.pass_statistics@[k].edges_after) == graph_size(gs[k + 1])
                } by {
                    if k < records.len() {
                        assert(stats.pass_statistics@[k] == records[k]);
                        assert(records[k].changes_made + count_occupied(prev[k + 1].node_arena().slots())
                            == count_occupied(prev[k].node_arena().slots()));
                        assert((records[k].nodes_before, records[k].edges_before) == graph_size(prev[k]));
                        assert((records[k].nodes_after, records[k].edges_after) == graph_size(prev[k + 1]));
                    }
                }
            }

            if iteration_changes <= self.config.convergence_threshold {
                proof {
                    assert(stats.pass_statistics@.drop_last() == records);
                }
                break;
            }

            match self.config.max_iterations {
                Some(max_iter) => {
                    if iteration >= max_iter {
                        proof {
                            assert(stats.pass_statistics@.drop_last() == records);
                        }
                        break;
                    }
                },
                None => {},
            }
            proof {
                assert(stats.pass_statistics@.drop_last() == records);
                assert forall|k: int| 0 <= k < stats.pass_statistics@.len() implies
                    #[trigger] stats.pass_statistics@[k].changes_made > self.config.convergence_threshold by {
                    if k < records.len() {
                        assert(stats.pass_statistics@[k] == records[k]);
                    }
                }
            }
        }

        stats.total_execution_time = instant_elapsed(&start_time);
        stats.total_changes = total_changes;
        stats.total_passes = iteration;
        stats.successful_passes = iteration;
        stats.failed_passes = 0;
        stats.final_graph_size = Self::get_graph_size(graph);
        proof {
            assert(iteration_trace(old(self).manager().pass_seq(), stats.pass_statistics@, gs));
        }

        Ok(stats)
    }

    /// Execute all passes in sequence for one iteration; a failure is
    /// recorded in the statistics and reported as the iteration's failure.
    fn execute_pass_sequence(&mut self, graph: &mut Graph, iteration: usize, stats: &mut OptimizationStatistics) -> (r: Result<u32, PassError>)
        requires
            old(graph).wf(),
            old(graph).node_arena().slots().len() <= u32::MAX,
        ensures
            final(graph).wf(),
            final(graph).node_arena().slots().len() <= u32::MAX,
            final(self).manager() == old(self).manager(),
            final(self).settings() == old(self).settings(),
            r is Ok,
            count_occupied(final(graph).node_arena().slots()) + r->Ok_0 == count_occupied(
                old(graph).node_arena().slots(),
            ),
            *final(stats) == *old(stats),
            shrunk_to(*old(graph), *final(graph), |k: OpKind| manager_removes(old(self).manager(), k)),
            passes_applied(old(self).manager().pass_seq(), *old(graph), *final(graph)),
    {
        match self.pass_manager.execute_all(graph) {
            Ok(changes) => Ok(changes),
            Err(e) => {
                let memory_before = self.get_memory_usage();
                let memory_after = self.get_memory_usage();
                let reason = e.message();
                let failed_stats = PassStatistics {
                    pass_name: failed_iteration_label(iteration),
                    execution_time: 0,
                    changes_made: 0,
                    memory_before,
                    memory_after,
                    nodes_before: 0,
                    nodes_after: 0,
                    edges_before: 0,
                    edges_after: 0,
                    success: false,
                    error_message: Some(reason),
                };
                stats.pass_statistics.push(failed_stats);
                if stats.failed_passes < usize::MAX {
                    stats.failed_passes = stats.failed_passes + 1;
                }
                Err(PassError::ExecutionFailed { message: iteration_failure(iteration, e.message().as_str()) })
            },
        }
    }
}

/// `gs` are the graphs that the iterations recorded in `records` pass
/// through: each iteration runs the passes `ps` in order on the graph before
/// it, and its record counts the nodes it removed.
pub open spec fn iteration_trace(ps: Seq<Pass>, records: Seq<PassStatistics>, gs: Seq<Graph>) -> bool {
    &&& gs.len() == records.len() + 1
    &&& forall|k: int|
        0 <= k < records.len() ==> {
            &&& passes_applied(ps, gs[k], gs[k + 1])
            &&& (#[trigger] records[k]).changes_made + count_occupied(gs[k + 1].node_arena().slots())
                == count_occupied(gs[k].node_arena().slots())
            &&& (records[k].nodes_before, records[k].edges_before) == graph_size(gs[k])
            &&& (records[k].nodes_after, records[k].edges_after) == graph_size(gs[k + 1])
        }
}

/// The iterations recorded in `records`, each running the passes `ps` once
/// in order, lead from `old` to `new`.
pub open spec fn ran_iterations(ps: Seq<Pass>, records: Seq<PassStatistics>, old: Graph, new: Graph) -> bool {
    exists|gs: Seq<Graph>| #[trigger] iteration_trace(ps, records, gs) && gs[0] == old && gs.last() == new
}

/// The inputs among `ins` that some node produces.
pub open spec fn produced_inputs(ins: Seq<ValueId>, prod: Map<u32, NodeId>) -> nat
    decreases ins.len(),
{
    if ins.len() == 0 {
        0
    } else {
        produced_inputs(ins.drop_last(), prod) + (if prod.contains_key(ins.last().0) { 1nat } else { 0nat })
    }
}

/// The edges of the live nodes in `slots`: each input that some node
/// produces.
pub open spec fn edge_total(slots: Seq<Option<Node>>, prod: Map<u32, NodeId>) -> nat
    decreases slots.len(),
{
    if slots.len() == 0 {
        0
    } else {
        edge_total(slots.drop_last(), prod) + match slots.last() {
            Some(n) => produced_inputs(n.inputs@, prod),
            None => 0nat,
        }
    }
}

/// `n`, or `usize::MAX` when it is larger.
pub open spec fn capped(n: int) -> usize {
    if n < usize::MAX {
        n as usize
    } else {
        usize::MAX
    }
}

/// The size of a graph as (nodes, edges): its live nodes, and the inputs of
/// its live nodes that another node produces, capped at `usize::MAX`.
pub open spec fn graph_size(g: Graph) -> (usize, usize) {
    (capped(count_occupied(g.node_arena().slots()) as int), capped(edge_total(g.node_arena().slots(), g.producers()) as int))
}

/// The total of the changes recorded.
pub open spec fn sum_changes(records: Seq<PassStatistics>) -> int
    decreases records.len(),
{
    if records.len() == 0 {
        0
    } else {
        sum_changes(records.drop_last()) + records.last().changes_made
    }
}

proof fn lemma_sum_changes_push(records: Seq<PassStatistics>, s: PassStatistics)
    ensures
        sum_changes(records.push(s)) == sum_changes(records) + s.changes_made,
{
    assert(records.push(s).drop_last() == records);
}

/// Every record so far is that of a successful iteration, numbered from
/// one, that made more changes than the threshold; with no memory
/// collection, every memory reading is zero.
pub open spec fn running_records(c: ComposerConfig, records: Seq<PassStatistics>) -> bool {
    forall|k: int|
        0 <= k < records.len() ==> {
            &&& iteration_record(#[trigger] records[k], (k + 1) as usize, records[k].changes_made)
            &&& records[k].changes_made > c.convergence_threshold
            &&& !c.collect_memory_stats ==> records[k].memory_before == 0 && records[k].memory_after == 0
        }
}

/// The memory peak is at least every reading after an iteration, and zero
/// when memory is not collected.
pub open spec fn memory_peak_bounds(c: ComposerConfig, peak: u64, records: Seq<PassStatistics>) -> bool {
    &&& forall|k: int| 0 <= k < records.len() ==> (#[trigger] records[k]).memory_after <= peak
    &&& !c.collect_memory_stats ==> peak == 0
}

/// What a finished run reports: at least one iteration, all successful
/// and recorded in order; every iteration but the last made more changes
/// than the threshold, and the last one made no more than the threshold or
/// reached the iteration limit (a limit of zero still runs one iteration);
/// no more iterations run than the limit allows; the total is the sum of
/// the iterations' changes.
pub open spec fn converged_run(c: ComposerConfig, s: OptimizationStatistics) -> bool {
    let records = s.pass_statistics@;
    let n = s.total_passes;
    &&& n >= 1
    &&& s.successful_passes == n
    &&& s.failed_passes == 0
    &&& records.len() == n
    &&& running_records(c, records.drop_last())
    &&& iteration_record(records.last(), n, records.last().changes_made)
    &&& (records.last().changes_made <= c.convergence_threshold
        || c.max_iterations == Some(n)
        || (c.max_iterations == Some(0usize) && n == 1))
    &&& c.max_iterations matches Some(m) ==> n <= m || n == 1
    &&& s.total_changes == sum_changes(records)
    &&& memory_peak_bounds(c, s.memory_peak, records)
}

/// The name recorded for iteration `n`.
fn iteration_label(n: usize) -> (s: String)
    ensures
        s@ == iteration_name(n),
{
    let d = decimal(n);
    prefixed("Iteration-", d.as_str())
}

/// The name recorded for failed iteration `n`.
fn failed_iteration_label(n: usize) -> (s: String)
    ensures
        s@ == failed_iteration_name(n),
{
    let mut s = iteration_label(n);
    s.append("-FAILED");
    s
}

/// The message of a failed iteration `n` whose passes reported `reason`.
fn iteration_failure(n: usize, reason: &str) -> (s: String)
    ensures
        s@ == iteration_failure_text(n, reason@),
{
    let d = decimal(n);
    let mut s = prefixed("Iteration ", d.as_str());
    s.append(" failed: ");
    s.append(reason);
    s
}

} // verus!

use onnx_optimizer_rs::{
    ComposerConfig, DataType, EliminateIdentity, Graph, Node, OpKind, OptimizationComposer, OptimizationStatistics,
    Pass, PassManager, Tensor,
};

fn quiet(max_iterations: Option<usize>, convergence_threshold: u32) -> ComposerConfig {
    ComposerConfig {
        show_progress: false,
        show_detailed_progress: false,
        collect_memory_stats: false,
        max_iterations,
        convergence_threshold,
    }
}

/// A chain of `n` Identity nodes.
fn identity_chain(n: usize) -> Graph {
    let mut graph = Graph::new();
    let mut prev = graph.add_value(Tensor::new(DataType::Float32));
    for _ in 0..n {
        let next = graph.add_value(Tensor::new(DataType::Float32));
        graph.add_node(Node::new(OpKind::Identity).with_inputs(vec![prev]).with_outputs(vec![next]));
        prev = next;
    }
    graph
}

#[test]
fn test_composer_creation() {
    let manager = PassManager::new();
    let composer = OptimizationComposer::new(manager);
    assert!(!composer.config.show_detailed_progress);
}

#[test]
fn test_composer_with_config() {
    let manager = PassManager::new();
    let config = ComposerConfig {
        show_progress: false,
        show_detailed_progress: true,
        collect_memory_stats: false,
        max_iterations: Some(10),
        convergence_threshold: 5,
    };

    let composer = OptimizationComposer::with_config(manager, config.clone());
    assert_eq!(composer.config.max_iterations, Some(10));
    assert_eq!(composer.config.convergence_threshold, 5);
    assert!(!composer.config.show_progress);
}

#[test]
fn test_statistics_creation() {
    let stats = OptimizationStatistics::new();
    assert_eq!(stats.total_changes, 0);
    assert_eq!(stats.total_passes, 0);
    assert_eq!(stats.successful_passes, 0);
    assert_eq!(stats.total_execution_time, 0);
}

#[test]
fn test_execute_basic() {
    let manager = PassManager::new().add_pass(Pass::EliminateIdentity(EliminateIdentity::new()));

    let mut composer = OptimizationComposer::new(manager);
    let mut graph = Graph::new();

    let result = composer.execute(&mut graph);
    assert!(result.is_ok());

    let stats = result.unwrap();
    assert!(stats.total_passes >= 1);
    assert_eq!(stats.successful_passes, stats.total_passes);
    assert_eq!(stats.failed_passes, 0);
}

#[test]
fn test_convergence_with_no_changes() {
    let manager = PassManager::new().add_pass(Pass::Placeholder);

    let config = quiet(Some(5), 0);

    let mut composer = OptimizationComposer::with_config(manager, config);
    let mut graph = Graph::new();

    let result = composer.execute(&mut graph);
    assert!(result.is_ok());

    let stats = result.unwrap();
    assert_eq!(stats.total_passes, 1);
    assert_eq!(stats.total_changes, 0);
}

#[test]
fn test_max_iterations_limit() {
    let manager = PassManager::new().add_pass(Pass::EliminateIdentity(EliminateIdentity::new()));

    let config = quiet(Some(3), 0);

    let mut composer = OptimizationComposer::with_config(manager, config);
    let mut graph = Graph::new();

    let result = composer.execute(&mut graph);
    assert!(result.is_ok());

    let stats = result.unwrap();
    assert!(stats.total_passes <= 3);
}

#[test]
fn convergence_removes_every_identity_and_reports_it() {
    let manager = PassManager::new().add_pass(Pass::EliminateIdentity(EliminateIdentity::new()));
    let mut composer = OptimizationComposer::with_config(manager, quiet(None, 0));
    let mut graph = identity_chain(4);
    let stats = composer.execute_to_convergence(&mut graph).unwrap();
    assert_eq!(graph.node_count(), 0);
    assert_eq!(stats.total_changes, 4);
    // the first iteration removes all four, the second finds nothing
    assert_eq!(stats.total_passes, 2);
    assert_eq!(stats.pass_statistics.len(), 2);
    assert_eq!(stats.pass_statistics[0].pass_name, "Iteration-1");
    assert_eq!(stats.pass_statistics[0].changes_made, 4);
    assert_eq!(stats.pass_statistics[1].pass_name, "Iteration-2");
    assert_eq!(stats.pass_statistics[1].changes_made, 0);
    assert!(stats.pass_statistics.iter().all(|s| s.success && s.error_message.is_none()));
    assert_eq!(stats.memory_peak, 0);
    // four nodes, three of them reading another node's output
    assert_eq!(stats.initial_graph_size, (4, 3));
    assert_eq!(stats.final_graph_size, (0, 0));
    assert_eq!(stats.pass_statistics[0].nodes_before, 4);
    assert_eq!(stats.pass_statistics[0].edges_before, 3);
    assert_eq!(stats.pass_statistics[0].nodes_after, 0);
    assert_eq!(stats.pass_statistics[1].nodes_before, 0);
}

#[test]
fn a_threshold_stops_at_the_first_small_iteration() {
    let manager = PassManager::new().add_pass(Pass::EliminateIdentity(EliminateIdentity::new()));
    let mut composer = OptimizationComposer::with_config(manager, quiet(None, 10));
    let mut graph = identity_chain(3);
    let stats = composer.execute(&mut graph).unwrap();
    assert_eq!(stats.total_passes, 1);
    assert_eq!(stats.total_changes, 3);
}

#[test]
fn a_limit_of_one_runs_one_iteration() {
    let manager = PassManager::new().add_pass(Pass::EliminateIdentity(EliminateIdentity::new()));
    let mut composer = OptimizationComposer::with_config(manager, quiet(Some(1), 0));
    let mut graph = identity_chain(2);
    let stats = composer.execute(&mut graph).unwrap();
    assert_eq!(stats.total_passes, 1);
    assert_eq!(stats.total_changes, 2);
}

#[test]
fn composer_default_config() {
    let config = ComposerConfig::default();
    assert!(config.show_progress);
    assert!(!config.show_detailed_progress);
    assert!(config.collect_memory_stats);
    assert_eq!(config.max_iterations, None);
    assert_eq!(config.convergence_threshold, 0);
}

#[test]
fn convergence_keeps_nodes_that_no_pass_removes() {
    let manager = PassManager::new().add_pass(Pass::EliminateIdentity(EliminateIdentity::new()));
    let mut composer = OptimizationComposer::with_config(manager, quiet(None, 0));
    let mut graph = Graph::new();
    let a = graph.add_value(Tensor::new(DataType::Float32));
    let b = graph.add_value(Tensor::new(DataType::Float32));
    let c = graph.add_value(Tensor::new(DataType::Float32));
    let d = graph.add_value(Tensor::new(DataType::Float32));
    graph.add_node(Node::new(OpKind::Identity).with_inputs(vec![a]).with_outputs(vec![b]));
    let relu = graph.add_node(Node::new(OpKind::Relu).with_inputs(vec![b]).with_outputs(vec![c]));
    graph.add_node(Node::new(OpKind::Identity).with_inputs(vec![c]).with_outputs(vec![d]));
    let stats = composer.execute(&mut graph).unwrap();
    assert_eq!(stats.total_changes, 2);
    assert_eq!(graph.node_count(), 1);
    let kept = graph.node(relu).unwrap();
    assert_eq!(kept.op_kind, OpKind::Relu);
    assert_eq!(graph.outputs(relu).len(), 1);
    assert_eq!(graph.inputs(relu).len(), 1);
    assert!(graph.tensor(a).is_some());
}

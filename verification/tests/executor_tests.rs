use onnx_optimizer_rs::graph::error::ExecutorError;
use onnx_optimizer_rs::executor::{OptimizationExecutor, OptimizationStats};
use onnx_optimizer_rs::graph::topology::topological_order;
use onnx_optimizer_rs::graph::traits::OptimizationLevel;
use onnx_optimizer_rs::passes::algorithms::constant_folding::ConstantFolding;
use onnx_optimizer_rs::graph::objects::TensorData;
use onnx_optimizer_rs::{
    DataType, EliminateIdentity, Graph, GraphError, Node, OpKind, OptimizationConfig, OptimizationPass, Tensor, ValueId,
};

// Test utilities for creating reusable objects
fn create_test_tensor(name: &str) -> Tensor {
    Tensor::new(DataType::Float32).with_name(name.to_string())
}

fn create_test_node_with_io(op_kind: OpKind, inputs: Vec<ValueId>, outputs: Vec<ValueId>) -> Node {
    Node::new(op_kind).with_inputs(inputs).with_outputs(outputs)
}

fn create_test_executor_with_values() -> (OptimizationExecutor, Vec<ValueId>) {
    let mut graph = Graph::new();
    let value_ids = (0..5).map(|i| graph.add_value(create_test_tensor(&format!("tensor_{}", i)))).collect();
    let config = OptimizationConfig::default();
    let executor = OptimizationExecutor::new(graph, config);
    (executor, value_ids)
}

#[test]
fn test_empty_graph_topological_order() {
    let graph = Graph::new();
    let config = OptimizationConfig::default();
    let mut executor = OptimizationExecutor::new(graph, config);

    let topo_order = executor.get_topological_order().unwrap();
    assert_eq!(topo_order.len(), 0);
}

#[test]
fn test_single_node_topological_order() {
    let mut graph = Graph::new();
    let input_value = graph.add_value(create_test_tensor("input"));
    let output_value = graph.add_value(create_test_tensor("output"));

    let node = create_test_node_with_io(OpKind::Relu, vec![input_value], vec![output_value]);
    let node_id = graph.add_node(node);

    let config = OptimizationConfig::default();
    let mut executor = OptimizationExecutor::new(graph, config);

    let topo_order = executor.get_topological_order().unwrap();
    assert_eq!(topo_order.len(), 1);
    assert_eq!(topo_order[0], node_id);
}

#[test]
fn test_linear_chain_topological_order() {
    let mut graph = Graph::new();
    let input = graph.add_value(create_test_tensor("input"));
    let intermediate1 = graph.add_value(create_test_tensor("relu_out"));
    let intermediate2 = graph.add_value(create_test_tensor("add_bias"));
    let output = graph.add_value(create_test_tensor("output"));

    let relu_node = create_test_node_with_io(OpKind::Relu, vec![input], vec![intermediate1]);
    let relu_id = graph.add_node(relu_node);

    let add_node = create_test_node_with_io(OpKind::Add, vec![intermediate1, intermediate2], vec![output]);
    let add_id = graph.add_node(add_node);

    let config = OptimizationConfig::default();
    let mut executor = OptimizationExecutor::new(graph, config);

    let topo_order = executor.get_topological_order().unwrap();
    assert_eq!(topo_order.len(), 2);

    let relu_pos = topo_order.iter().position(|&id| id == relu_id).unwrap();
    let add_pos = topo_order.iter().position(|&id| id == add_id).unwrap();
    assert!(relu_pos < add_pos, "Relu should come before Add in topological order");
}

#[test]
fn test_diamond_dependency_topological_order() {
    let mut graph = Graph::new();
    let input = graph.add_value(create_test_tensor("input"));
    let a_out = graph.add_value(create_test_tensor("a_out"));
    let b_out = graph.add_value(create_test_tensor("b_out"));
    let output = graph.add_value(create_test_tensor("output"));

    let node_a = create_test_node_with_io(OpKind::Relu, vec![input], vec![a_out]);
    let a_id = graph.add_node(node_a);

    let node_b = create_test_node_with_io(OpKind::Sigmoid, vec![input], vec![b_out]);
    let b_id = graph.add_node(node_b);

    let add_node = create_test_node_with_io(OpKind::Add, vec![a_out, b_out], vec![output]);
    let add_id = graph.add_node(add_node);

    let config = OptimizationConfig::default();
    let mut executor = OptimizationExecutor::new(graph, config);

    let topo_order = executor.get_topological_order().unwrap();
    assert_eq!(topo_order.len(), 3);

    let a_pos = topo_order.iter().position(|&id| id == a_id).unwrap();
    let b_pos = topo_order.iter().position(|&id| id == b_id).unwrap();
    let add_pos = topo_order.iter().position(|&id| id == add_id).unwrap();

    assert!(a_pos < add_pos, "Node A should come before Add");
    assert!(b_pos < add_pos, "Node B should come before Add");
}

#[test]
fn test_topological_order_caching() {
    let (mut executor, _) = create_test_executor_with_values();

    // First call - should compute and cache
    let topo_order1_ptr = {
        let topo_order1 = executor.get_topological_order().unwrap();
        topo_order1.as_ptr()
    };

    // Second call - should return cached result
    let topo_order2_ptr = {
        let topo_order2 = executor.get_topological_order().unwrap();
        topo_order2.as_ptr()
    };

    // They should be the same reference (pointer equality)
    assert_eq!(topo_order1_ptr, topo_order2_ptr);
}

#[test]
fn test_topological_order_cache_invalidation() {
    let mut graph = Graph::new();
    let input = graph.add_value(create_test_tensor("input"));
    let output = graph.add_value(create_test_tensor("output"));

    let config = OptimizationConfig::default();
    let mut executor = OptimizationExecutor::new(graph, config);

    let initial_order = executor.get_topological_order().unwrap();
    assert_eq!(initial_order.len(), 0);

    let node = create_test_node_with_io(OpKind::Relu, vec![input], vec![output]);
    executor.graph.add_node(node);

    let new_order = executor.get_topological_order().unwrap();
    assert_eq!(new_order.len(), 1);
}

#[test]
fn test_invalidate_topology_explicitly() {
    let (mut executor, _) = create_test_executor_with_values();

    let _order1 = executor.get_topological_order().unwrap();

    executor.invalidate_topology();

    let _order2 = executor.get_topological_order().unwrap();
}

#[test]
fn test_multiple_independent_chains() {
    let mut graph = Graph::new();

    let input1 = graph.add_value(create_test_tensor("input1"));
    let output1 = graph.add_value(create_test_tensor("output1"));
    let relu1 = create_test_node_with_io(OpKind::Relu, vec![input1], vec![output1]);
    let relu1_id = graph.add_node(relu1);

    let input2 = graph.add_value(create_test_tensor("input2"));
    let output2 = graph.add_value(create_test_tensor("output2"));
    let sigmoid2 = create_test_node_with_io(OpKind::Sigmoid, vec![input2], vec![output2]);
    let sigmoid2_id = graph.add_node(sigmoid2);

    let config = OptimizationConfig::default();
    let mut executor = OptimizationExecutor::new(graph, config);

    let topo_order = executor.get_topological_order().unwrap();
    assert_eq!(topo_order.len(), 2);
    assert!(topo_order.contains(&relu1_id));
    assert!(topo_order.contains(&sigmoid2_id));
}

#[test]
fn a_dependency_cycle_has_no_topological_order() {
    let mut graph = Graph::new();
    let x = graph.add_value(create_test_tensor("x"));
    let y = graph.add_value(create_test_tensor("y"));
    graph.add_node(create_test_node_with_io(OpKind::Relu, vec![x], vec![y]));
    graph.add_node(create_test_node_with_io(OpKind::Relu, vec![y], vec![x]));
    assert_eq!(topological_order(&graph), Err(GraphError::CyclicGraph));
    let mut executor = OptimizationExecutor::new(graph, OptimizationConfig::default());
    assert_eq!(executor.get_topological_order().err(), Some(GraphError::CyclicGraph));
    assert!(executor.cached_topo_order.is_none());
}

#[test]
fn a_node_reading_its_own_output_is_a_cycle() {
    let mut graph = Graph::new();
    let x = graph.add_value(create_test_tensor("x"));
    graph.add_node(create_test_node_with_io(OpKind::Add, vec![x], vec![x]));
    assert_eq!(topological_order(&graph), Err(GraphError::CyclicGraph));
}

#[test]
fn a_stale_cache_of_the_right_length_is_returned_as_is() {
    let (mut executor, v) = create_test_executor_with_values();
    let n = executor.graph.add_node(create_test_node_with_io(OpKind::Relu, vec![v[0]], vec![v[1]]));
    executor.cached_topo_order = Some(vec![onnx_optimizer_rs::NodeId(9)]);
    assert_eq!(executor.get_topological_order().unwrap(), &[onnx_optimizer_rs::NodeId(9)]);
    executor.invalidate_topology();
    assert_eq!(executor.get_topological_order().unwrap(), &[n]);
}

#[test]
fn executor_placeholder_analyses() {
    let (executor, v) = create_test_executor_with_values();
    assert!(executor.can_fold_constant(onnx_optimizer_rs::NodeId(0)));
    assert!(!executor.is_dead_node(onnx_optimizer_rs::NodeId(0)));
    assert!(OptimizationExecutor::supports_constant_folding(&OpKind::Conv));
    assert!(executor.validate_graph().is_ok());
    assert_eq!(executor.tensor(v[0]).unwrap().name.as_deref(), Some("tensor_0"));
    assert!(executor.node_ids().is_empty());
}

#[test]
fn test_executor_creation() {
    let graph = Graph::new();
    let config = OptimizationConfig { max_passes: 3, cache_topology: false, min_graph_size_for_advanced_opts: 7 };
    let executor = OptimizationExecutor::new(graph, config);
    assert_eq!(executor.config.max_passes, 3);
    assert!(!executor.config.cache_topology);
    assert!(executor.cached_topo_order.is_none());
    assert!(executor.dirty_nodes.is_empty());
    assert_eq!(executor.stats.passes_executed, 0);
}

#[test]
fn test_optimization_stats() {
    let stats = OptimizationStats::default();
    assert_eq!(stats.constants_folded, 0);
    assert_eq!(stats.dead_nodes_eliminated, 0);
    assert_eq!(stats.identity_nodes_removed, 0);
    assert_eq!(stats.dropout_nodes_removed, 0);
    assert_eq!(stats.operators_fused, 0);
    assert_eq!(stats.passes_executed, 0);
}

#[test]
fn test_identity_elimination() {
    let mut graph = Graph::new();
    let a = graph.add_value(create_test_tensor("a"));
    let b = graph.add_value(create_test_tensor("b"));
    let c = graph.add_value(create_test_tensor("c"));
    let id = graph.add_node(create_test_node_with_io(OpKind::Identity, vec![a], vec![b]));
    let relu = graph.add_node(create_test_node_with_io(OpKind::Relu, vec![b], vec![c]));
    let mut executor = OptimizationExecutor::new(graph, OptimizationConfig::default());
    assert_eq!(EliminateIdentity::new().execute(&mut executor.graph), Ok(1));
    assert!(executor.node(id).is_none());
    assert_eq!(executor.inputs(relu), &[a]);
    assert_eq!(executor.get_topological_order().unwrap(), &[relu]);
}

#[test]
fn test_constant_folding() {
    let mut graph = Graph::new();
    let one = Tensor { name: None, shape: None, dtype: DataType::Float32, data: Some(TensorData::Float32(vec![1.0f32.to_bits()])) };
    let a = graph.add_value(one.clone());
    let b = graph.add_value(one);
    let s = graph.add_value(create_test_tensor("sum"));
    let n = graph.add_node(create_test_node_with_io(OpKind::Sub, vec![a, b], vec![s]));
    assert_eq!(ConstantFolding::new().foldable_nodes(&graph), Ok(vec![n]));
    let zero = Tensor { name: Some("sum".to_string()), shape: None, dtype: DataType::Float32, data: Some(TensorData::Float32(vec![(1.0f32 - 1.0f32).to_bits()])) };
    assert!(graph.replace_with_constant(n, zero).is_ok());
    assert!(graph.node(n).is_none());
    assert_eq!(graph.producer(s), None);
    assert!(graph.tensor(s).unwrap().data.is_some());
}

#[test]
fn test_dead_node_elimination() {
    // No node is considered dead by the executor's analysis.
    let (mut executor, v) = create_test_executor_with_values();
    let n = executor.graph.add_node(create_test_node_with_io(OpKind::Relu, vec![v[0]], vec![v[1]]));
    assert!(!executor.is_dead_node(n));
    assert_eq!(executor.graph.node_count(), 1);
}

#[test]
fn optimization_level_includes_basic() {
    assert!(OptimizationLevel::Basic.includes_basic());
}

#[test]
fn error_messages() {
    assert_eq!(GraphError::CyclicGraph.message(), "Graph contains cycles");
    assert_eq!(ExecutorError::CyclicGraph.message(), "Graph contains cycles");
    assert_eq!(ExecutorError::InvalidOperation("x".to_string()).message(), "Invalid node operation: x");
    assert_eq!(ExecutorError::ConstantFoldingError("y".to_string()).message(), "Constant folding failed: y");
    assert_eq!(ExecutorError::ValidationError("z".to_string()).message(), "Graph validation failed: z");
}

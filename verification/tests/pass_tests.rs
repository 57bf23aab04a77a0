use onnx_optimizer_rs::passes::algorithms::constant_folding::ConstantFolding;
use onnx_optimizer_rs::passes::base::{BasePass, PassCategory};
use onnx_optimizer_rs::passes::basic::constant_folding::ConstantFoldingPass;
use onnx_optimizer_rs::passes::basic::dead_node_elimination::DeadNodeEliminationPass;
use onnx_optimizer_rs::passes::eliminations::EliminateNopCast;
use onnx_optimizer_rs::passes::error::PassError;
use onnx_optimizer_rs::passes::fusion::conv_batchnorm::ConvBatchNormFusionPass;
use onnx_optimizer_rs::graph::objects::TensorData;
use onnx_optimizer_rs::{
    DataType, EliminateIdentity, EliminateNopConcat, EliminateNopTranspose, Graph, Node, NodeAttrValue,
    NodeId, OpKind, OptimizationPass, Pass, PassManager, Tensor, ValueId,
};

fn shaped_tensor(name: &str, shape: Vec<i64>) -> Tensor {
    Tensor { name: Some(name.to_string()), shape: Some(shape), dtype: DataType::Float32, data: None }
}

fn scalar(bits: f32) -> Tensor {
    Tensor { name: None, shape: None, dtype: DataType::Float32, data: Some(TensorData::Float32(vec![bits.to_bits()])) }
}

fn create_test_graph_with_identity() -> (Graph, NodeId, ValueId, ValueId) {
    let mut graph = Graph::new();
    let input_id = graph.add_value(Tensor::new(DataType::Float32));
    let output_id = graph.add_value(Tensor::new(DataType::Float32));
    let identity_node = Node::new(OpKind::Identity).with_inputs(vec![input_id]).with_outputs(vec![output_id]);
    let node_id = graph.add_node(identity_node);
    (graph, node_id, input_id, output_id)
}

fn create_test_graph_with_nop_concat() -> (Graph, NodeId, ValueId, ValueId) {
    let mut graph = Graph::new();
    let input_id = graph.add_value(shaped_tensor("input", vec![2, 3]));
    let output_id = graph.add_value(shaped_tensor("output", vec![2, 3]));
    let concat_node = Node::new(OpKind::Concat).with_inputs(vec![input_id]).with_outputs(vec![output_id]);
    let node_id = graph.add_node(concat_node);
    (graph, node_id, input_id, output_id)
}

fn create_test_graph_with_nop_transpose() -> (Graph, NodeId, ValueId, ValueId) {
    let mut graph = Graph::new();
    let input_id = graph.add_value(shaped_tensor("input", vec![2, 3, 4]));
    let output_id = graph.add_value(shaped_tensor("output", vec![2, 3, 4]));
    let mut transpose_node = Node::new(OpKind::Transpose).with_inputs(vec![input_id]).with_outputs(vec![output_id]);
    transpose_node.attributes.insert("perm".to_string(), NodeAttrValue::Ints(vec![0, 1, 2]));
    let node_id = graph.add_node(transpose_node);
    (graph, node_id, input_id, output_id)
}

#[test]
fn test_base_pass_creation() {
    let base = BasePass::new("test_pass", 5);
    assert_eq!(base.name, "test_pass");
    assert_eq!(base.priority, 5);
}

#[test]
fn test_find_identity_nodes() {
    let (graph, node_id, _, _) = create_test_graph_with_identity();
    let pass = EliminateIdentity::new();
    let identity_nodes = pass.find_identity_nodes(&graph);
    assert_eq!(identity_nodes.len(), 1);
    assert_eq!(identity_nodes[0], node_id);
}

#[test]
fn test_can_eliminate_identity() {
    let (graph, node_id, _, _) = create_test_graph_with_identity();
    let pass = EliminateIdentity::new();
    assert!(pass.can_eliminate_identity(&graph, node_id));
}

#[test]
fn test_eliminate_identity_node() {
    let (mut graph, node_id, _, _) = create_test_graph_with_identity();
    let pass = EliminateIdentity::new();
    let result = pass.eliminate_identity_node(&mut graph, node_id);
    assert!(result.is_ok());
    assert!(result.unwrap());
}

#[test]
fn eliminate_identity_test_execute_pass() {
    let (mut graph, _, _, _) = create_test_graph_with_identity();
    let pass = EliminateIdentity::new();
    let result = pass.execute(&mut graph);
    assert!(result.is_ok());
    assert_eq!(result.unwrap(), 1);
}

#[test]
fn test_identity_elimination_with_consumers() {
    let mut graph = Graph::new();
    let input_id = graph.add_value(Tensor::new(DataType::Float32));
    let identity_output_id = graph.add_value(Tensor::new(DataType::Float32));
    let final_output_id = graph.add_value(Tensor::new(DataType::Float32));

    let identity_node = Node::new(OpKind::Identity).with_inputs(vec![input_id]).with_outputs(vec![identity_output_id]);
    let identity_node_id = graph.add_node(identity_node);

    let consumer_node = Node::new(OpKind::Relu).with_inputs(vec![identity_output_id]).with_outputs(vec![final_output_id]);
    let consumer_node_id = graph.add_node(consumer_node);

    assert_eq!(graph.node(consumer_node_id).unwrap().inputs[0], identity_output_id);

    let pass = EliminateIdentity::new();
    let result = pass.execute(&mut graph);

    assert!(result.is_ok());
    assert_eq!(result.unwrap(), 1);
    assert_eq!(graph.node(consumer_node_id).unwrap().inputs[0], input_id);
    assert!(graph.node(identity_node_id).is_none());
    assert!(graph.tensor(identity_output_id).is_none());
}

#[test]
fn eliminate_identity_test_empty_graph() {
    let mut graph = Graph::new();
    let pass = EliminateIdentity::new();
    let result = pass.execute(&mut graph);
    assert!(result.is_ok());
    assert_eq!(result.unwrap(), 0);
}

#[test]
fn test_find_concat_nodes() {
    let (graph, node_id, _, _) = create_test_graph_with_nop_concat();
    let pass = EliminateNopConcat::new();
    let concat_nodes = pass.find_concat_nodes(&graph);
    assert_eq!(concat_nodes.len(), 1);
    assert_eq!(concat_nodes[0], node_id);
}

#[test]
fn test_can_eliminate_concat() {
    let (graph, node_id, _, _) = create_test_graph_with_nop_concat();
    let pass = EliminateNopConcat::new();
    assert!(pass.can_eliminate_concat(&graph, node_id));
}

#[test]
fn test_cannot_eliminate_concat_multiple_inputs() {
    let mut graph = Graph::new();
    let input1_id = graph.add_value(shaped_tensor("input1", vec![2, 3]));
    let input2_id = graph.add_value(shaped_tensor("input2", vec![2, 3]));
    let output_id = graph.add_value(shaped_tensor("output", vec![2, 3]));
    let concat_node = Node::new(OpKind::Concat).with_inputs(vec![input1_id, input2_id]).with_outputs(vec![output_id]);
    let node_id = graph.add_node(concat_node);
    let pass = EliminateNopConcat::new();
    assert!(!pass.can_eliminate_concat(&graph, node_id));
}

#[test]
fn test_cannot_eliminate_concat_multiple_outputs() {
    let mut graph = Graph::new();
    let input_id = graph.add_value(shaped_tensor("input", vec![2, 3]));
    let output1_id = graph.add_value(shaped_tensor("output1", vec![2, 3]));
    let output2_id = graph.add_value(shaped_tensor("output2", vec![2, 3]));
    let concat_node = Node::new(OpKind::Concat).with_inputs(vec![input_id]).with_outputs(vec![output1_id, output2_id]);
    let node_id = graph.add_node(concat_node);
    let pass = EliminateNopConcat::new();
    assert!(!pass.can_eliminate_concat(&graph, node_id));
}

#[test]
fn test_eliminate_concat_node() {
    let (mut graph, node_id, _, _) = create_test_graph_with_nop_concat();
    let pass = EliminateNopConcat::new();
    let result = pass.eliminate_concat_node(&mut graph, node_id);
    assert!(result.is_ok());
    assert!(result.unwrap());
}

#[test]
fn eliminate_nop_concat_test_execute_pass() {
    let (mut graph, _, _, _) = create_test_graph_with_nop_concat();
    let pass = EliminateNopConcat::new();
    let result = pass.execute(&mut graph);
    assert!(result.is_ok());
    assert_eq!(result.unwrap(), 1);
}

#[test]
fn test_concat_elimination_with_consumers() {
    let mut graph = Graph::new();
    let input_id = graph.add_value(shaped_tensor("input", vec![2, 3]));
    let concat_output_id = graph.add_value(shaped_tensor("concat_output", vec![2, 3]));
    let final_output_id = graph.add_value(shaped_tensor("final_output", vec![2, 3]));

    let concat_node = Node::new(OpKind::Concat).with_inputs(vec![input_id]).with_outputs(vec![concat_output_id]);
    let concat_node_id = graph.add_node(concat_node);
    let consumer_node = Node::new(OpKind::Relu).with_inputs(vec![concat_output_id]).with_outputs(vec![final_output_id]);
    let consumer_node_id = graph.add_node(consumer_node);

    assert_eq!(graph.node(consumer_node_id).unwrap().inputs[0], concat_output_id);

    let pass = EliminateNopConcat::new();
    let result = pass.execute(&mut graph);

    assert!(result.is_ok());
    assert_eq!(result.unwrap(), 1);
    assert_eq!(graph.node(consumer_node_id).unwrap().inputs[0], input_id);
    assert!(graph.node(concat_node_id).is_none());
    assert!(graph.tensor(concat_output_id).is_none());
}

#[test]
fn eliminate_nop_concat_test_empty_graph() {
    let mut graph = Graph::new();
    let pass = EliminateNopConcat::new();
    let result = pass.execute(&mut graph);
    assert!(result.is_ok());
    assert_eq!(result.unwrap(), 0);
}

#[test]
fn test_multiple_concat_nodes() {
    let mut graph = Graph::new();
    let input1_id = graph.add_value(shaped_tensor("input1", vec![2, 3]));
    let output1_id = graph.add_value(shaped_tensor("output1", vec![2, 3]));
    graph.add_node(Node::new(OpKind::Concat).with_inputs(vec![input1_id]).with_outputs(vec![output1_id]));
    let input2_id = graph.add_value(shaped_tensor("input2", vec![2, 3]));
    let output2_id = graph.add_value(shaped_tensor("output2", vec![2, 3]));
    graph.add_node(Node::new(OpKind::Concat).with_inputs(vec![input2_id]).with_outputs(vec![output2_id]));

    let pass = EliminateNopConcat::new();
    let result = pass.execute(&mut graph);
    assert!(result.is_ok());
    assert_eq!(result.unwrap(), 2);
}

#[test]
fn test_mixed_concat_nodes() {
    let mut graph = Graph::new();
    let input1_id = graph.add_value(shaped_tensor("input1", vec![2, 3]));
    let output1_id = graph.add_value(shaped_tensor("output1", vec![2, 3]));
    graph.add_node(Node::new(OpKind::Concat).with_inputs(vec![input1_id]).with_outputs(vec![output1_id]));
    let input2_id = graph.add_value(shaped_tensor("input2", vec![2, 3]));
    let input3_id = graph.add_value(shaped_tensor("input3", vec![2, 3]));
    let output2_id = graph.add_value(shaped_tensor("output2", vec![2, 3]));
    graph.add_node(Node::new(OpKind::Concat).with_inputs(vec![input2_id, input3_id]).with_outputs(vec![output2_id]));

    let pass = EliminateNopConcat::new();
    let result = pass.execute(&mut graph);
    assert!(result.is_ok());
    assert_eq!(result.unwrap(), 1);
}

#[test]
fn test_find_transpose_nodes() {
    let (graph, node_id, _, _) = create_test_graph_with_nop_transpose();
    let pass = EliminateNopTranspose::new();
    let transpose_nodes = pass.find_transpose_nodes(&graph);
    assert_eq!(transpose_nodes.len(), 1);
    assert_eq!(transpose_nodes[0], node_id);
}

#[test]
fn test_is_identity_perm_array() {
    let pass = EliminateNopTranspose::new();
    let shape = vec![2, 3, 4];

    // Identity permutation
    assert!(pass.is_identity_perm_array(&[0, 1, 2], Some(&shape)));

    // Non-identity permutation
    assert!(!pass.is_identity_perm_array(&[1, 0, 2], Some(&shape)));
    assert!(!pass.is_identity_perm_array(&[2, 1, 0], Some(&shape)));

    // Wrong length
    assert!(!pass.is_identity_perm_array(&[0, 1], Some(&shape)));
    assert!(!pass.is_identity_perm_array(&[0, 1, 2, 3], Some(&shape)));
}

#[test]
fn test_is_nop_transpose_identity_perm() {
    let (graph, node_id, _, _) = create_test_graph_with_nop_transpose();
    let pass = EliminateNopTranspose::new();
    assert!(pass.is_nop_transpose(&graph, node_id));
}

#[test]
fn test_is_nop_transpose_missing_perm() {
    let mut graph = Graph::new();
    let input_id = graph.add_value(shaped_tensor("input", vec![2, 3, 4]));
    let output_id = graph.add_value(shaped_tensor("output", vec![2, 3, 4]));
    let transpose_node = Node::new(OpKind::Transpose).with_inputs(vec![input_id]).with_outputs(vec![output_id]);
    let node_id = graph.add_node(transpose_node);
    let pass = EliminateNopTranspose::new();
    assert!(pass.is_nop_transpose(&graph, node_id));
}

#[test]
fn test_is_nop_transpose_low_rank_tensor() {
    let mut graph = Graph::new();
    let input_tensor = Tensor { name: Some("input_1d".to_string()), shape: Some(vec![5]), dtype: DataType::Float32, data: None };
    let output_tensor = Tensor { name: Some("output_1d".to_string()), shape: Some(vec![5]), dtype: DataType::Float32, data: None };
    let input_id = graph.add_value(input_tensor);
    let output_id = graph.add_value(output_tensor);
    let transpose_node = Node::new(OpKind::Transpose).with_inputs(vec![input_id]).with_outputs(vec![output_id]);
    let node_id = graph.add_node(transpose_node);
    let pass = EliminateNopTranspose::new();
    assert!(pass.is_nop_transpose(&graph, node_id));
}

#[test]
fn eliminate_nop_transpose_test_execute_pass() {
    let (mut graph, _, _, _) = create_test_graph_with_nop_transpose();
    let pass = EliminateNopTranspose::new();
    let result = pass.execute(&mut graph);
    assert!(result.is_ok());
    assert_eq!(result.unwrap(), 1);
}

#[test]
fn eliminate_nop_transpose_test_empty_graph() {
    let mut graph = Graph::new();
    let pass = EliminateNopTranspose::new();
    let result = pass.execute(&mut graph);
    assert!(result.is_ok());
    assert_eq!(result.unwrap(), 0);
}

#[test]
fn non_identity_transpose_is_kept() {
    let mut graph = Graph::new();
    let input_id = graph.add_value(shaped_tensor("input", vec![2, 3]));
    let output_id = graph.add_value(shaped_tensor("output", vec![3, 2]));
    let node = Node::new(OpKind::Transpose)
        .with_inputs(vec![input_id])
        .with_outputs(vec![output_id])
        .add_attribute("perm".to_string(), NodeAttrValue::Ints(vec![1, 0]));
    let node_id = graph.add_node(node);
    let pass = EliminateNopTranspose::new();
    assert!(!pass.is_nop_transpose(&graph, node_id));
    assert_eq!(pass.execute(&mut graph).unwrap(), 0);
    assert!(graph.node(node_id).is_some());
}

#[test]
fn test_pass_manager_creation() {
    let manager = PassManager::new();
    assert!(manager.passes().is_empty());
}

#[test]
fn test_pass_manager_chaining() {
    let manager = PassManager::new()
        .add_pass(Pass::EliminateIdentity(EliminateIdentity::new()))
        .add_pass(Pass::EliminateNopTranspose(EliminateNopTranspose::new()));
    assert_eq!(manager.passes().len(), 2);
}

#[test]
fn test_execute_with_passes() {
    let manager = PassManager::new().add_pass(Pass::EliminateIdentity(EliminateIdentity::new()));
    let mut graph = Graph::new();
    let result = manager.execute_all(&mut graph);
    assert!(result.is_ok());
    assert_eq!(result.unwrap(), 0);
}

#[test]
fn test_execute_with_identity_elimination() {
    let manager = PassManager::new().add_pass(Pass::EliminateIdentity(EliminateIdentity::new()));
    let mut graph = Graph::new();
    let input_id = graph.add_value(Tensor::new(DataType::Float32));
    let output_id = graph.add_value(Tensor::new(DataType::Float32));
    let identity_node = Node::new(OpKind::Identity).with_inputs(vec![input_id]).with_outputs(vec![output_id]);
    graph.add_node(identity_node);

    let result = manager.execute_all(&mut graph);
    assert!(result.is_ok());
    assert_eq!(result.unwrap(), 1);
}

#[test]
fn manager_total_is_the_number_of_nodes_removed() {
    // Identity then nop Transpose in a chain; both passes remove one node.
    let mut graph = Graph::new();
    let a = graph.add_value(shaped_tensor("a", vec![2, 2]));
    let b = graph.add_value(shaped_tensor("b", vec![2, 2]));
    let c = graph.add_value(shaped_tensor("c", vec![2, 2]));
    graph.add_node(Node::new(OpKind::Identity).with_inputs(vec![a]).with_outputs(vec![b]));
    graph.add_node(Node::new(OpKind::Transpose).with_inputs(vec![b]).with_outputs(vec![c]));
    let before = graph.node_count();
    let manager = PassManager::new()
        .add_pass(Pass::EliminateIdentity(EliminateIdentity::new()))
        .add_pass(Pass::EliminateNopTranspose(EliminateNopTranspose::new()))
        .add_pass(Pass::Placeholder);
    let changes = manager.execute_all(&mut graph).unwrap();
    assert_eq!(changes, 2);
    assert_eq!(graph.node_count() + changes as usize, before);
    // a second run has nothing left to do
    assert_eq!(manager.execute_all(&mut graph).unwrap(), 0);
}

#[test]
fn pass_names_and_categories() {
    assert_eq!(Pass::EliminateIdentity(EliminateIdentity::new()).pass_name(), "EliminateIdentity");
    assert_eq!(Pass::Placeholder.pass_name(), "Placeholder");
    assert_eq!(ConstantFolding::new().pass_name(), "ConstantFolding");
    let cf = ConstantFoldingPass::new();
    assert_eq!(cf.pass_name(), "constant_folding");
    assert_eq!(cf.category(), PassCategory::ConstantFolding);
    assert_eq!(DeadNodeEliminationPass::new().category(), PassCategory::DeadCodeElimination);
    assert_eq!(ConvBatchNormFusionPass::new().category(), PassCategory::OperatorFusion);
    let _ = EliminateNopCast::new();
}

#[test]
fn unimplemented_passes_report_it() {
    let mut graph = Graph::new();
    match DeadNodeEliminationPass::new().execute(&mut graph) {
        Err(PassError::NotImplemented(_)) => {}
        other => panic!("unexpected result {:?}", other),
    }
    match ConvBatchNormFusionPass::new().execute(&mut graph) {
        Err(PassError::NotImplemented(_)) => {}
        other => panic!("unexpected result {:?}", other),
    }
    assert_eq!(ConstantFoldingPass::new().execute(&mut graph), Ok(0));
}

#[test]
fn constant_folding_counts_foldable_nodes() {
    // Add of two scalar constants, a Relu of a constant tensor, and an
    // Identity: three foldable nodes; a Mul of a non-constant is not.
    let mut graph = Graph::new();
    let a = graph.add_value(scalar(2.0));
    let b = graph.add_value(scalar(3.0));
    let s = graph.add_value(Tensor::new(DataType::Float32));
    let x = graph.add_value(Tensor::new(DataType::Float32));
    let r = graph.add_value(Tensor::new(DataType::Float32));
    let m = graph.add_value(Tensor::new(DataType::Float32));
    let i = graph.add_value(Tensor::new(DataType::Float32));
    graph.add_node(Node::new(OpKind::Add).with_inputs(vec![a, b]).with_outputs(vec![s]));
    graph.add_node(Node::new(OpKind::Relu).with_inputs(vec![a]).with_outputs(vec![r]));
    graph.add_node(Node::new(OpKind::Mul).with_inputs(vec![a, x]).with_outputs(vec![m]));
    graph.add_node(Node::new(OpKind::Identity).with_inputs(vec![b]).with_outputs(vec![i]));
    let pass = ConstantFolding::new();
    assert!(pass.is_constant_foldable_op(&OpKind::Div));
    assert!(!pass.is_constant_foldable_op(&OpKind::Conv));
    assert_eq!(pass.find_candidates(&graph).unwrap(), vec![NodeId(0), NodeId(1), NodeId(3)]);
    assert_eq!(pass.all_inputs_are_constants(&graph, NodeId(2)), Ok(false));
    assert_eq!(pass.foldable_nodes(&graph), Ok(vec![NodeId(0), NodeId(1), NodeId(3)]));
    // detection only reads the graph
    assert_eq!(graph.node_count(), 4);
}

#[test]
fn replacing_an_add_of_constants_by_its_result() {
    let mut graph = Graph::new();
    let a = graph.add_value(scalar(1.0));
    let b = graph.add_value(scalar(2.0));
    let o = graph.add_value(Tensor::new(DataType::Float32));
    let r = graph.add_value(Tensor::new(DataType::Float32));
    let add = graph.add_node(Node::new(OpKind::Add).with_inputs(vec![a, b]).with_outputs(vec![o]));
    let relu = graph.add_node(Node::new(OpKind::Relu).with_inputs(vec![o]).with_outputs(vec![r]));
    let pass = ConstantFolding::new();
    assert_eq!(pass.foldable_nodes(&graph), Ok(vec![add]));
    let sum = f32::from_bits(1.0f32.to_bits()) + f32::from_bits(2.0f32.to_bits());
    assert_eq!(graph.replace_with_constant(add, scalar(sum)), Ok(()));
    assert!(graph.node(add).is_none());
    assert_eq!(graph.producer(o), None);
    match &graph.tensor(o).unwrap().data {
        Some(TensorData::Float32(v)) => assert_eq!(v, &vec![3.0f32.to_bits()]),
        _ => panic!("the output holds no float data"),
    }
    assert_eq!(graph.inputs(relu), &[o]);
    assert!(!graph.consumers(a).contains(&add));
    // the Relu now reads a constant and can be folded in turn
    assert_eq!(pass.foldable_nodes(&graph), Ok(vec![relu]));
    // a missing node, or one without a single output, is refused
    assert!(graph.replace_with_constant(add, scalar(0.0)).is_err());
    let no_out = graph.add_node(Node::new(OpKind::Add).with_inputs(vec![a, b]));
    assert_eq!(
        graph.replace_with_constant(no_out, scalar(0.0)).err().map(|e| e.message()),
        Some("Invalid model: Node cannot be replaced by a constant: it needs exactly one output value".to_string())
    );
    assert!(graph.node(no_out).is_some());
}

#[test]
fn constant_folding_division_by_zero_fails() {
    let mut graph = Graph::new();
    let a = graph.add_value(scalar(1.0));
    let z = graph.add_value(scalar(-0.0));
    let q = graph.add_value(Tensor::new(DataType::Float32));
    graph.add_node(Node::new(OpKind::Div).with_inputs(vec![a, z]).with_outputs(vec![q]));
    let result = ConstantFolding::new().foldable_nodes(&graph);
    assert_eq!(result, Err(PassError::ConstantFoldingFailed { reason: "Division by zero".to_string() }));
}

#[test]
fn constant_folding_missing_node_is_an_error() {
    let graph = Graph::new();
    let result = ConstantFolding::new().all_inputs_are_constants(&graph, NodeId(7));
    assert_eq!(result, Err(PassError::GraphOperationFailed { details: "Node NodeId(7) not found".to_string() }));
}

#[test]
fn pass_error_messages() {
    let e = PassError::ExecutionFailed { message: "boom".to_string() };
    assert_eq!(e.message(), "Pass execution failed: boom");
}

/// A pass built on `BasePass`, the way the project's passes are.
#[derive(Debug, Clone)]
pub struct TestPass {
    pub base: BasePass,
    pub counter: u32,
}

impl TestPass {
    pub fn new() -> Self {
        Self { base: BasePass::new("test_pass", 1), counter: Default::default() }
    }
}

impl OptimizationPass for TestPass {
    fn execute(&self, _graph: &mut Graph) -> Result<u32, PassError> {
        Ok(1)
    }

    fn pass_name(&self) -> String {
        self.base.name.clone()
    }
}

#[test]
fn test_define_pass_macro() {
    let pass = TestPass::new();
    assert_eq!(pass.pass_name(), "test_pass");
    assert_eq!(pass.counter, 0);

    let mut graph = Graph::new();
    let result = pass.execute(&mut graph);
    assert!(result.is_ok());
    assert_eq!(result.unwrap(), 1);

    assert_eq!(pass.counter, 0);
}

#[test]
fn transpose_without_inputs_or_outputs_is_kept() {
    let mut graph = Graph::new();
    let output_id = graph.add_value(shaped_tensor("output", vec![2]));
    let no_input = graph.add_node(Node::new(OpKind::Transpose).with_outputs(vec![output_id]));
    let input_id = graph.add_value(shaped_tensor("input", vec![2]));
    let no_output = graph.add_node(Node::new(OpKind::Transpose).with_inputs(vec![input_id]));
    let pass = EliminateNopTranspose::new();
    assert!(!pass.can_eliminate_transpose(&graph, no_input));
    assert!(!pass.can_eliminate_transpose(&graph, no_output));
    assert_eq!(pass.eliminate_nop_transpose_node(&mut graph, no_input), Ok(false));
    assert_eq!(pass.execute(&mut graph), Ok(0));
    assert!(graph.node(no_input).is_some());
    assert!(graph.node(no_output).is_some());
    let manager = PassManager::new().add_pass(Pass::EliminateNopTranspose(EliminateNopTranspose::new()));
    assert_eq!(manager.execute_all(&mut graph), Ok(0));
    assert_eq!(graph.node_count(), 2);
}

#[test]
fn mixed_concats_keep_the_two_input_one() {
    let mut graph = Graph::new();
    let i1 = graph.add_value(shaped_tensor("i1", vec![2, 3]));
    let o1 = graph.add_value(shaped_tensor("o1", vec![2, 3]));
    let i2 = graph.add_value(shaped_tensor("i2", vec![2, 3]));
    let i3 = graph.add_value(shaped_tensor("i3", vec![2, 3]));
    let o2 = graph.add_value(shaped_tensor("o2", vec![2, 3]));
    let c1 = graph.add_node(Node::new(OpKind::Concat).with_inputs(vec![i1]).with_outputs(vec![o1]));
    let c2 = graph.add_node(Node::new(OpKind::Concat).with_inputs(vec![i2, i3]).with_outputs(vec![o2]));
    assert_eq!(EliminateNopConcat::new().execute(&mut graph), Ok(1));
    assert!(graph.node(c1).is_none());
    assert_eq!(graph.inputs(c2).to_vec(), vec![i2, i3]);
    assert_eq!(graph.outputs(c2).to_vec(), vec![o2]);
}

#[test]
fn identity_removed_and_graph_output_rewired() {
    let mut graph = Graph::new();
    let a = graph.add_value(Tensor::new(DataType::Float32));
    let m = graph.add_value(Tensor::new(DataType::Float32));
    let o = graph.add_value(Tensor::new(DataType::Float32));
    let idn = graph.add_node(Node::new(OpKind::Identity).with_inputs(vec![a]).with_outputs(vec![m]));
    let r = graph.add_node(Node::new(OpKind::Relu).with_inputs(vec![m]).with_outputs(vec![o]));
    let manager = PassManager::new().add_pass(Pass::EliminateIdentity(EliminateIdentity::new()));
    assert_eq!(manager.execute_all(&mut graph), Ok(1));
    assert!(graph.node(idn).is_none());
    assert!(graph.tensor(m).is_none());
    assert_eq!(graph.node(r).unwrap().inputs[0], a);
    assert!(graph.tensor(a).is_some() && graph.tensor(o).is_some());
    assert_eq!(graph.consumers(a), vec![r]);
}

#[test]
fn a_second_concat_sweep_changes_nothing() {
    let mut graph = Graph::new();
    let a = graph.add_value(shaped_tensor("a", vec![2]));
    let b = graph.add_value(shaped_tensor("b", vec![2]));
    let c = graph.add_value(shaped_tensor("c", vec![2]));
    graph.add_node(Node::new(OpKind::Concat).with_inputs(vec![a]).with_outputs(vec![b]));
    graph.add_node(Node::new(OpKind::Concat).with_inputs(vec![b]).with_outputs(vec![c]));
    let pass = EliminateNopConcat::new();
    assert_eq!(pass.execute(&mut graph), Ok(2));
    let nodes = graph.node_count();
    let values = graph.value_count();
    assert_eq!(pass.execute(&mut graph), Ok(0));
    assert_eq!(graph.node_count(), nodes);
    assert_eq!(graph.value_count(), values);
}

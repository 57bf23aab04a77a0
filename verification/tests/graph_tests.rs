use onnx_optimizer_rs::utils::name_index::NameIndex;
use onnx_optimizer_rs::{DataType, Graph, Node, NodeAttrValue, NodeId, OpKind, Tensor, ValueId};

// Test utilities for creating reusable objects
fn create_test_tensor(name: &str) -> Tensor {
    Tensor::new(DataType::Float32).with_name(name.to_string())
}

fn create_test_node_with_io(op_kind: OpKind, inputs: Vec<ValueId>, outputs: Vec<ValueId>) -> Node {
    Node::new(op_kind).with_inputs(inputs).with_outputs(outputs)
}

fn create_test_graph_with_values() -> (Graph, Vec<ValueId>) {
    let mut graph = Graph::new();
    let value_ids = (0..5)
        .map(|i| graph.add_value(create_test_tensor(&format!("tensor_{}", i))))
        .collect();
    (graph, value_ids)
}

#[test]
fn test_from_onnx_known_ops() {
    assert_eq!(OpKind::from_onnx("Add"), OpKind::Add);
    assert_eq!(OpKind::from_onnx("Sub"), OpKind::Sub);
    assert_eq!(OpKind::from_onnx("Mul"), OpKind::Mul);
    assert_eq!(OpKind::from_onnx("Div"), OpKind::Div);

    assert_eq!(OpKind::from_onnx("Relu"), OpKind::Relu);
    assert_eq!(OpKind::from_onnx("MatMul"), OpKind::MatMul);
    assert_eq!(OpKind::from_onnx("Gemm"), OpKind::Gemm);
    assert_eq!(OpKind::from_onnx("Concat"), OpKind::Concat);
    assert_eq!(OpKind::from_onnx("ReduceMean"), OpKind::ReduceMean);
    assert_eq!(OpKind::from_onnx("MaxPool"), OpKind::MaxPool);
}

#[test]
fn test_from_onnx_unknown_op() {
    let k = OpKind::from_onnx("CustomOp_XYZ");
    assert_eq!(k, OpKind::Unknown("CustomOp_XYZ".to_string()));
    // as_onnx_str gives back the op string that an Unknown kind carries
    assert_eq!(k.as_onnx_str(), "CustomOp_XYZ");
}

#[test]
fn test_roundtrip_known_ops() {
    let ops = [
        OpKind::Add,
        OpKind::Sub,
        OpKind::Mul,
        OpKind::Div,
        OpKind::Relu,
        OpKind::MatMul,
        OpKind::Gemm,
        OpKind::Concat,
        OpKind::ReduceMean,
        OpKind::MaxPool,
    ];

    for k in ops.iter() {
        let s = k.as_onnx_str();
        let back = OpKind::from_onnx(s);
        assert_eq!(&back, k, "roundtrip failed for {}", s);
    }
}

#[test]
fn onnx_names_are_case_sensitive() {
    assert_eq!(OpKind::from_onnx("add"), OpKind::Unknown("add".to_string()));
    assert_eq!(OpKind::from_onnx(""), OpKind::Unknown(String::new()));
    assert_eq!(OpKind::BatchNormalization.as_onnx_str(), "BatchNormalization");
}

#[test]
fn test_add_node_basic() {
    let mut graph = Graph::new();
    let node = Node::new(OpKind::Add);

    let node_id = graph.add_node(node);

    // Verify the node was added
    assert!(graph.node(node_id).is_some());
    assert_eq!(graph.node(node_id).unwrap().op_kind, OpKind::Add);
}

#[test]
fn test_add_node_with_inputs_and_outputs() {
    let (mut graph, value_ids) = create_test_graph_with_values();
    let inputs = vec![value_ids[0], value_ids[1]];
    let outputs = vec![value_ids[2]];

    let node = create_test_node_with_io(OpKind::Add, inputs.clone(), outputs.clone());
    let node_id = graph.add_node(node);

    // Verify node was added with correct inputs/outputs
    let added_node = graph.node(node_id).unwrap();
    assert_eq!(added_node.inputs, inputs);
    assert_eq!(added_node.outputs, outputs);
}

#[test]
fn test_add_node_producer_registration() {
    let (mut graph, value_ids) = create_test_graph_with_values();
    let outputs = vec![value_ids[0], value_ids[1]];

    let node = create_test_node_with_io(OpKind::Relu, vec![], outputs.clone());
    let node_id = graph.add_node(node);

    // Verify all outputs are registered as produced by this node
    for &output_id in &outputs {
        assert_eq!(graph.producer(output_id), Some(node_id));
    }
}

#[test]
fn test_add_node_consumer_registration() {
    let (mut graph, value_ids) = create_test_graph_with_values();
    let inputs = vec![value_ids[0], value_ids[1], value_ids[2]];

    let node = create_test_node_with_io(OpKind::Concat, inputs.clone(), vec![]);
    let node_id = graph.add_node(node);

    // Verify all inputs are registered as consumed by this node
    for &input_id in &inputs {
        assert!(graph.consumers(input_id).contains(&node_id));
    }
}

#[test]
fn test_add_node_multiple_consumers() {
    let (mut graph, value_ids) = create_test_graph_with_values();
    let shared_input = value_ids[0];

    // Add first node that consumes the value
    let node1 = create_test_node_with_io(OpKind::Relu, vec![shared_input], vec![]);
    let node_id1 = graph.add_node(node1);

    // Add second node that also consumes the same value
    let node2 = create_test_node_with_io(OpKind::Sigmoid, vec![shared_input], vec![]);
    let node_id2 = graph.add_node(node2);

    // Verify both nodes are registered as consumers
    let consumers = graph.consumers(shared_input);
    assert_eq!(consumers.len(), 2);
    assert!(consumers.contains(&node_id1));
    assert!(consumers.contains(&node_id2));
}

#[test]
fn test_add_node_topology_cache_invalidation() {
    let mut graph = Graph::new();

    // Set up a fake topology cache
    graph.topo_cache = Some(vec![]);

    let node = Node::new(OpKind::Identity);
    graph.add_node(node);

    // Verify topology cache was invalidated
    assert!(graph.topo_cache.is_none());
}

#[test]
fn test_add_node_no_inputs_or_outputs() {
    let mut graph = Graph::new();
    let node = Node::new(OpKind::Constant);

    let node_id = graph.add_node(node);

    // Verify node was added successfully even with no inputs/outputs
    let added_node = graph.node(node_id).unwrap();
    assert!(added_node.inputs.is_empty());
    assert!(added_node.outputs.is_empty());
    assert_eq!(added_node.op_kind, OpKind::Constant);
}

#[test]
fn test_add_node_complex_graph() {
    let (mut graph, value_ids) = create_test_graph_with_values();

    // Create a small computation graph: Add -> Relu -> MatMul
    let add_node = create_test_node_with_io(OpKind::Add, vec![value_ids[0], value_ids[1]], vec![value_ids[2]]);
    let add_id = graph.add_node(add_node);

    let relu_node = create_test_node_with_io(OpKind::Relu, vec![value_ids[2]], vec![value_ids[3]]);
    let relu_id = graph.add_node(relu_node);

    let matmul_node = create_test_node_with_io(OpKind::MatMul, vec![value_ids[3], value_ids[4]], vec![]);
    let matmul_id = graph.add_node(matmul_node);

    // Verify the graph structure
    assert_eq!(graph.producer(value_ids[2]), Some(add_id));
    assert_eq!(graph.producer(value_ids[3]), Some(relu_id));

    assert!(graph.consumers(value_ids[0]).contains(&add_id));
    assert!(graph.consumers(value_ids[1]).contains(&add_id));
    assert!(graph.consumers(value_ids[2]).contains(&relu_id));
    assert!(graph.consumers(value_ids[3]).contains(&matmul_id));
    assert!(graph.consumers(value_ids[4]).contains(&matmul_id));
}

#[test]
fn test_add_node_with_attributes() {
    let mut graph = Graph::new();
    let mut node = Node::new(OpKind::Conv);
    node = node.add_attribute("kernel_shape".to_string(), NodeAttrValue::Ints(vec![3, 3]));
    node = node.add_attribute("strides".to_string(), NodeAttrValue::Ints(vec![1, 1]));

    let node_id = graph.add_node(node);

    // Verify node with attributes was added correctly
    let added_node = graph.node(node_id).unwrap();
    assert_eq!(added_node.op_kind, OpKind::Conv);
    assert_eq!(added_node.attributes.len(), 2);
    assert!(added_node.attributes.contains_key("kernel_shape"));
    assert!(added_node.attributes.contains_key("strides"));
}

#[test]
fn attribute_insert_replaces_earlier_value() {
    let node = Node::new(OpKind::Conv)
        .add_attribute("group".to_string(), NodeAttrValue::Int(1))
        .add_attribute("group".to_string(), NodeAttrValue::Int(2));
    assert_eq!(node.attributes.len(), 1);
    match node.attributes.get("group") {
        Some(NodeAttrValue::Int(v)) => assert_eq!(*v, 2),
        _ => panic!("group attribute missing"),
    }
    assert!(node.attributes.get("pads").is_none());
}

#[test]
fn removing_a_node_unregisters_it() {
    let (mut graph, v) = create_test_graph_with_values();
    let a = graph.add_node(create_test_node_with_io(OpKind::Relu, vec![v[0]], vec![v[1]]));
    let b = graph.add_node(create_test_node_with_io(OpKind::Relu, vec![v[0]], vec![v[2]]));
    assert_eq!(graph.node_count(), 2);
    graph.remove_node(a);
    assert!(graph.node(a).is_none());
    assert_eq!(graph.producer(v[1]), None);
    assert_eq!(graph.consumers(v[0]), vec![b]);
    assert_eq!(graph.node_count(), 1);
    // the freed slot is reused by the next node
    let c = graph.add_node(Node::new(OpKind::Add));
    assert_eq!(c, a);
    assert_eq!(graph.node_ids(), vec![NodeId(0), NodeId(1)]);
}

#[test]
fn replacing_a_value_rewires_its_consumers() {
    let (mut graph, v) = create_test_graph_with_values();
    let n = graph.add_node(create_test_node_with_io(OpKind::Add, vec![v[1], v[2], v[1]], vec![v[3]]));
    graph.replace_value(v[1], v[0]);
    assert_eq!(graph.inputs(n), &[v[0], v[2], v[0]]);
    assert!(graph.consumers(v[0]).contains(&n));
    assert!(graph.consumers(v[1]).is_empty());
    graph.remove_value(v[1]);
    assert!(graph.tensor(v[1]).is_none());
    assert_eq!(graph.value_count(), 4);
}

#[test]
fn inputs_and_outputs_of_a_missing_node_are_empty() {
    let graph = Graph::new();
    assert!(graph.inputs(NodeId(3)).is_empty());
    assert!(graph.outputs(NodeId(3)).is_empty());
    assert!(graph.graph_inputs().is_empty());
    assert!(graph.graph_outputs().is_empty());
}

#[test]
fn name_index_maps_each_name_to_its_last_value() {
    let mut index: NameIndex<u32> = NameIndex::new();
    for i in 0..1000u32 {
        index.insert(format!("value_{}", i), i);
    }
    index.insert("value_7".to_string(), 70);
    assert_eq!(index.get("value_7"), Some(&70));
    assert_eq!(index.get("value_999"), Some(&999));
    assert!(index.contains_key("value_0"));
    assert!(!index.contains_key("value_1000"));
    assert_eq!(index.get(""), None);
}

use onnx_optimizer_rs::graph::objects::TensorData;
use onnx_optimizer_rs::{
    AttributeProto, DataType, Dimension, DimensionValue, Graph, GraphProto, ModelProto, Node, NodeAttrValue,
    NodeId, NodeProto, OnnxOptError, OpKind, ProtoDataType, Tensor, TensorProto, TensorShapeProto, TensorTypeProto,
    TypeProto, TypeValue, ValueId, ValueInfoProto,
};

fn tensor_proto(data_type: i32) -> TensorProto {
    TensorProto {
        dims: vec![],
        data_type: Some(data_type),
        float_data: vec![],
        int32_data: vec![],
        string_data: vec![],
        int64_data: vec![],
        name: None,
        raw_data: None,
        double_data: vec![],
        uint64_data: vec![],
    }
}

fn attr(name: &str, kind: i32) -> AttributeProto {
    AttributeProto {
        name: Some(name.to_string()),
        attr_type: Some(kind),
        f: None,
        i: None,
        s: None,
        t: None,
        floats: vec![],
        ints: vec![],
        strings: vec![],
        tensors: vec![],
    }
}

fn node_proto(op: &str, inputs: &[&str], outputs: &[&str]) -> NodeProto {
    NodeProto {
        input: inputs.iter().map(|s| s.to_string()).collect(),
        output: outputs.iter().map(|s| s.to_string()).collect(),
        name: Some(format!("{}_node", op)),
        op_type: Some(op.to_string()),
        domain: None,
        attribute: vec![],
    }
}

fn value_info(name: &str, elem_type: i32, dims: &[i64]) -> ValueInfoProto {
    ValueInfoProto {
        name: Some(name.to_string()),
        value_type: Some(TypeProto {
            value: Some(TypeValue::TensorType(TensorTypeProto {
                elem_type: Some(elem_type),
                shape: Some(TensorShapeProto {
                    dim: dims.iter().map(|d| Dimension { value: Some(DimensionValue::DimValue(*d)) }).collect(),
                }),
            })),
        }),
    }
}

fn conversion(e: OnnxOptError) -> String {
    match e {
        OnnxOptError::Conversion(m) => m,
        other => panic!("expected a conversion error, got {:?}", other),
    }
}

#[test]
fn element_types_map_to_tensor_types() {
    assert_eq!(DataType::from_proto_data_type(ProtoDataType::Float), Ok(DataType::Float32));
    assert_eq!(DataType::from_proto_data_type(ProtoDataType::Double), Ok(DataType::Float64));
    assert_eq!(DataType::from_proto_data_type(ProtoDataType::Bool), Ok(DataType::Bool));
    assert_eq!(
        DataType::from_proto_data_type(ProtoDataType::Float16),
        Err(OnnxOptError::UnsupportedOp("Unsupported data type: Float16".to_string()))
    );
    assert_eq!(ProtoDataType::from_code(11), Some(ProtoDataType::Double));
    assert_eq!(ProtoDataType::from_code(99), None);
}

#[test]
fn float_data_comes_from_the_typed_field_first() {
    let mut tp = tensor_proto(1);
    tp.float_data = vec![1.5f32.to_bits(), (-2.0f32).to_bits()];
    tp.raw_data = Some(vec![0, 0, 128, 63]);
    match TensorData::from_proto(&tp).unwrap() {
        Some(TensorData::Float32(v)) => assert_eq!(v, vec![1.5f32.to_bits(), (-2.0f32).to_bits()]),
        other => panic!("unexpected {:?}", other),
    }
}

#[test]
fn raw_bytes_are_read_little_endian() {
    let mut tp = tensor_proto(1);
    tp.raw_data = Some(1.0f32.to_le_bytes().iter().chain(2.5f32.to_le_bytes().iter()).copied().collect());
    match TensorData::from_proto(&tp).unwrap() {
        Some(TensorData::Float32(v)) => assert_eq!(v, vec![1.0f32.to_bits(), 2.5f32.to_bits()]),
        other => panic!("unexpected {:?}", other),
    }
    let mut tp = tensor_proto(7);
    tp.raw_data = Some((-3i64).to_le_bytes().to_vec());
    match TensorData::from_proto(&tp).unwrap() {
        Some(TensorData::Int64(v)) => assert_eq!(v, vec![-3]),
        other => panic!("unexpected {:?}", other),
    }
    let mut tp = tensor_proto(6);
    tp.raw_data = Some(vec![0xff, 0xff, 0xff, 0xff, 7, 0, 0, 0]);
    match TensorData::from_proto(&tp).unwrap() {
        Some(TensorData::Int32(v)) => assert_eq!(v, vec![-1, 7]),
        other => panic!("unexpected {:?}", other),
    }
    let mut tp = tensor_proto(11);
    tp.raw_data = Some(0.25f64.to_le_bytes().to_vec());
    match TensorData::from_proto(&tp).unwrap() {
        Some(TensorData::Float64(v)) => assert_eq!(v, vec![0.25f64.to_bits()]),
        other => panic!("unexpected {:?}", other),
    }
}

#[test]
fn raw_bytes_must_be_whole_elements() {
    let mut tp = tensor_proto(1);
    tp.raw_data = Some(vec![1, 2, 3, 4, 5, 6]);
    let e = TensorData::from_proto(&tp).unwrap_err();
    assert_eq!(conversion(e), "Invalid raw data length for f32: expected multiple of 4, got 6");
}

#[test]
fn no_data_gives_none_and_bad_type_codes_fail() {
    let tp = tensor_proto(1);
    assert!(TensorData::from_proto(&tp).unwrap().is_none());
    let tp = tensor_proto(200);
    assert_eq!(conversion(TensorData::from_proto(&tp).unwrap_err()), "Invalid data type");
    let mut tp = tensor_proto(10);
    tp.int32_data = vec![1];
    assert_eq!(
        TensorData::from_proto(&tp).unwrap_err(),
        OnnxOptError::UnsupportedOp("Unsupported data type for tensor data extraction: Float16".to_string())
    );
}

#[test]
fn narrow_integer_types_are_range_checked() {
    let mut tp = tensor_proto(3);
    tp.int32_data = vec![-128, 127];
    match TensorData::from_proto(&tp).unwrap() {
        Some(TensorData::Int8(v)) => assert_eq!(v, vec![-128, 127]),
        other => panic!("unexpected {:?}", other),
    }
    tp.int32_data = vec![128];
    assert_eq!(conversion(TensorData::from_proto(&tp).unwrap_err()), "Int32 value out of range for int8");
    let mut tp = tensor_proto(2);
    tp.int32_data = vec![-1];
    assert_eq!(conversion(TensorData::from_proto(&tp).unwrap_err()), "Int32 value out of range for uint8");
    let mut tp = tensor_proto(12);
    tp.uint64_data = vec![u64::from(u32::MAX) + 1];
    assert_eq!(conversion(TensorData::from_proto(&tp).unwrap_err()), "Uint64 value too large for uint32");
    tp.uint64_data = vec![5];
    match TensorData::from_proto(&tp).unwrap() {
        Some(TensorData::Uint32(v)) => assert_eq!(v, vec![5]),
        other => panic!("unexpected {:?}", other),
    }
}

#[test]
fn booleans_and_bytes() {
    let mut tp = tensor_proto(9);
    tp.raw_data = Some(vec![0, 2, 1]);
    match TensorData::from_proto(&tp).unwrap() {
        Some(TensorData::Bool(v)) => assert_eq!(v, vec![false, true, true]),
        other => panic!("unexpected {:?}", other),
    }
    let mut tp = tensor_proto(2);
    tp.raw_data = Some(vec![9, 250]);
    match TensorData::from_proto(&tp).unwrap() {
        Some(TensorData::Uint8(v)) => assert_eq!(v, vec![9, 250]),
        other => panic!("unexpected {:?}", other),
    }
}

#[test]
fn string_data_must_be_utf8() {
    let mut tp = tensor_proto(8);
    tp.string_data = vec![b"ab".to_vec(), "é".as_bytes().to_vec()];
    match TensorData::from_proto(&tp).unwrap() {
        Some(TensorData::String(v)) => assert_eq!(v, vec!["ab".to_string(), "é".to_string()]),
        other => panic!("unexpected {:?}", other),
    }
    tp.string_data = vec![b"ok".to_vec(), vec![0xff]];
    let e = conversion(TensorData::from_proto(&tp).unwrap_err());
    assert!(e.starts_with("Invalid UTF-8 in string data: "), "{}", e);
}

#[test]
fn tensors_take_name_shape_and_type() {
    let mut tp = tensor_proto(7);
    tp.name = Some("w".to_string());
    tp.dims = vec![2];
    tp.int64_data = vec![4, 5];
    let t = Tensor::from_proto(&tp).unwrap();
    assert_eq!(t.name.as_deref(), Some("w"));
    assert_eq!(t.shape, Some(vec![2]));
    assert_eq!(t.dtype, DataType::Int64);
    assert!(t.has_data());
    let t = Tensor::from_proto(&tensor_proto(1)).unwrap();
    assert_eq!(t.shape, None);
    assert!(!t.has_data());
    assert_eq!(
        Tensor::from_proto(&tensor_proto(16)).unwrap_err(),
        OnnxOptError::UnsupportedOp("Unsupported data type: Bfloat16".to_string())
    );
}

#[test]
fn value_infos_declare_type_and_known_dimensions() {
    let mut vi = value_info("x", 7, &[3, 4]);
    if let Some(TypeProto { value: Some(TypeValue::TensorType(tt)) }) = &mut vi.value_type {
        if let Some(shape) = &mut tt.shape {
            shape.dim.insert(0, Dimension { value: Some(DimensionValue::DimParam("batch".to_string())) });
        }
    }
    let t = Tensor::from_value_info_proto(&vi).unwrap();
    assert_eq!(t.name.as_deref(), Some("x"));
    assert_eq!(t.dtype, DataType::Int64);
    assert_eq!(t.shape, Some(vec![3, 4]));
    assert!(t.data.is_none());
    // unsupported element type falls back to an unshaped 32-bit float
    let t = Tensor::from_value_info_proto(&value_info("h", 10, &[2])).unwrap();
    assert_eq!(t.dtype, DataType::Float32);
    assert_eq!(t.shape, None);
    let vi = ValueInfoProto { name: None, value_type: Some(TypeProto { value: Some(TypeValue::NonTensor) }) };
    let t = Tensor::from_value_info_proto(&vi).unwrap();
    assert_eq!((t.name, t.dtype, t.shape), (None, DataType::Float32, None));
}

#[test]
fn attributes_by_kind() {
    let mut a = attr("alpha", 1);
    a.f = Some(0.5f64.to_bits());
    assert!(matches!(NodeAttrValue::from_proto(&a), Ok(NodeAttrValue::Float(b)) if b == 0.5f64.to_bits()));
    let a = attr("alpha", 1);
    assert_eq!(conversion(NodeAttrValue::from_proto(&a).unwrap_err()), "Float attribute has no value");
    let mut a = attr("axis", 2);
    a.i = Some(-1);
    assert!(matches!(NodeAttrValue::from_proto(&a), Ok(NodeAttrValue::Int(-1))));
    let mut a = attr("mode", 3);
    a.s = Some(b"constant".to_vec());
    assert!(matches!(NodeAttrValue::from_proto(&a), Ok(NodeAttrValue::String(s)) if s == "constant"));
    let mut a = attr("pads", 7);
    a.ints = vec![1, 2];
    assert!(matches!(NodeAttrValue::from_proto(&a), Ok(NodeAttrValue::Ints(v)) if v == vec![1, 2]));
    let a = attr("body", 5);
    assert!(matches!(NodeAttrValue::from_proto(&a), Ok(NodeAttrValue::Graph(v)) if v.is_empty()));
    let a = attr("ts", 9);
    assert_eq!(conversion(NodeAttrValue::from_proto(&a).unwrap_err()), "Tensors attribute has no values");
    let mut a = attr("ts", 9);
    a.tensors = vec![tensor_proto(1), tensor_proto(200)];
    assert!(matches!(NodeAttrValue::from_proto(&a), Ok(NodeAttrValue::Tensor(_))));
    let a = attr("gs", 10);
    assert_eq!(
        NodeAttrValue::from_proto(&a).unwrap_err(),
        OnnxOptError::UnsupportedOp("Unsupported attribute type: Graphs".to_string())
    );
    let mut a = attr("x", 3);
    a.attr_type = None;
    assert_eq!(
        NodeAttrValue::from_proto(&a).unwrap_err(),
        OnnxOptError::UnsupportedOp("Unsupported attribute type: Undefined".to_string())
    );
}

#[test]
fn nodes_take_kind_name_and_attributes() {
    let mut np = node_proto("Conv", &["x", "w"], &["y"]);
    let mut g = attr("group", 2);
    g.i = Some(1);
    let mut g2 = attr("group", 2);
    g2.i = Some(4);
    np.attribute = vec![g, g2];
    let n = Node::from_node_proto(&np).unwrap();
    assert_eq!(n.op_kind, OpKind::Conv);
    assert_eq!(n.name.as_deref(), Some("Conv_node"));
    assert!(n.inputs.is_empty() && n.outputs.is_empty());
    assert_eq!(n.attributes.len(), 1);
    assert!(matches!(n.attributes.get("group"), Some(NodeAttrValue::Int(4))));

    let mut np = node_proto("Relu", &[], &[]);
    np.op_type = None;
    assert_eq!(conversion(Node::from_node_proto(&np).unwrap_err()), "Missing op_type in NodeProto");
    let mut np = node_proto("Relu", &[], &[]);
    let mut nameless = attr("a", 2);
    nameless.name = None;
    np.attribute = vec![attr("b", 1), nameless];
    // the first failing attribute decides the error
    assert_eq!(conversion(Node::from_node_proto(&np).unwrap_err()), "Float attribute has no value");
}

fn empty_graph_proto() -> GraphProto {
    GraphProto { node: vec![], name: None, initializer: vec![], input: vec![], output: vec![], value_info: vec![] }
}

#[test]
fn graphs_wire_nodes_by_value_names() {
    let mut gp = empty_graph_proto();
    let mut w = tensor_proto(1);
    w.name = Some("w".to_string());
    w.float_data = vec![1.0f32.to_bits()];
    gp.initializer = vec![w];
    gp.input = vec![value_info("x", 1, &[1])];
    gp.output = vec![value_info("z", 1, &[1])];
    gp.value_info = vec![value_info("y", 1, &[1]), value_info("x", 7, &[])];
    gp.node = vec![node_proto("Add", &["x", "w"], &["y"]), node_proto("Relu", &["y"], &["z"]), node_proto("Foo", &["q"], &["r"])];

    let graph = Graph::from_graph_proto(&gp).unwrap();
    assert_eq!(graph.node_count(), 3);
    // values: w, x, z, y, then placeholders q and r
    assert_eq!(graph.value_count(), 6);
    assert_eq!(graph.graph_inputs(), &[ValueId(1)]);
    assert_eq!(graph.graph_outputs(), &[ValueId(2)]);
    assert_eq!(graph.tensor(ValueId(0)).unwrap().name.as_deref(), Some("w"));
    let add = graph.node(NodeId(0)).unwrap();
    let relu = graph.node(NodeId(1)).unwrap();
    assert_eq!(add.inputs, vec![ValueId(1), ValueId(0)]);
    assert_eq!(add.outputs, relu.inputs);
    assert_eq!(relu.outputs, vec![ValueId(2)]);
    assert_eq!(graph.producer(add.outputs[0]), Some(NodeId(0)));
    assert_eq!(graph.node(NodeId(2)).unwrap().op_kind, OpKind::Unknown("Foo".to_string()));
    let q = graph.node(NodeId(2)).unwrap().inputs[0];
    assert_eq!(graph.tensor(q).unwrap().name.as_deref(), Some("q"));
    assert_eq!(graph.tensor(q).unwrap().dtype, DataType::Float32);
}

#[test]
fn graph_errors_come_from_initializers_first() {
    let mut gp = empty_graph_proto();
    let mut bad = node_proto("Relu", &[], &[]);
    bad.op_type = None;
    gp.node = vec![bad];
    assert_eq!(conversion(Graph::from_graph_proto(&gp).unwrap_err()), "Missing op_type in NodeProto");
    gp.initializer = vec![tensor_proto(1), tensor_proto(200)];
    assert_eq!(conversion(Graph::from_graph_proto(&gp).unwrap_err()), "Invalid data type");
}

#[test]
fn models_need_a_graph() {
    let model = ModelProto { graph: None };
    assert_eq!(
        Graph::from_model_proto(&model).unwrap_err(),
        OnnxOptError::InvalidModel("Model has no graph".to_string())
    );
    let model = ModelProto { graph: Some(empty_graph_proto()) };
    let graph = Graph::from_model_proto(&model).unwrap();
    assert_eq!(graph.node_count(), 0);
    assert_eq!(graph.value_count(), 0);
}

#[test]
fn error_messages_carry_their_kind() {
    assert_eq!(OnnxOptError::Conversion("x".to_string()).message(), "Conversion error: x");
    assert_eq!(OnnxOptError::InvalidModel("m".to_string()).message(), "Invalid model: m");
    assert_eq!(OnnxOptError::UnsupportedOp("o".to_string()).message(), "Unsupported operation: o");
}

#[test]
fn declared_names_resolve_outputs_over_inputs_over_initializers() {
    let mut gp = empty_graph_proto();
    let mut a = tensor_proto(1);
    a.name = Some("a".to_string());
    a.float_data = vec![2.0f32.to_bits()];
    let mut b = tensor_proto(1);
    b.name = Some("b".to_string());
    b.float_data = vec![3.0f32.to_bits()];
    gp.initializer = vec![a, b];
    gp.input = vec![value_info("b", 1, &[1]), value_info("c", 1, &[1])];
    gp.output = vec![value_info("c", 6, &[2])];
    gp.value_info = vec![value_info("v", 7, &[3]), value_info("v", 1, &[4])];
    gp.node = vec![node_proto("Sum", &["a", "b", "c", "v", "p"], &["p"])];

    let graph = Graph::from_graph_proto(&gp).unwrap();
    // values: a, b (initializers), b, c (inputs), c (output), v (first description), then p
    let sum = graph.node(NodeId(0)).unwrap();
    assert_eq!(sum.inputs, vec![ValueId(0), ValueId(2), ValueId(4), ValueId(5), ValueId(6)]);
    assert_eq!(sum.outputs, vec![ValueId(6)]);
    assert!(graph.tensor(ValueId(0)).unwrap().data.is_some());
    assert_eq!(graph.tensor(ValueId(4)).unwrap().dtype, DataType::Int32);
    assert_eq!(graph.tensor(ValueId(5)).unwrap().dtype, DataType::Int64);
    let p = graph.tensor(ValueId(6)).unwrap();
    assert_eq!(p.name.as_deref(), Some("p"));
    assert_eq!(p.dtype, DataType::Float32);
    assert!(p.shape.is_none() && p.data.is_none());
    for v in &sum.inputs {
        assert!(graph.consumers(*v).contains(&NodeId(0)));
    }
    assert_eq!(graph.producer(ValueId(6)), Some(NodeId(0)));
}

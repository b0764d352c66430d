use std::collections::{HashMap, HashSet};

use safetensors_to_onnx::builders::{
    attr_int, attr_ints, const_scalar_f32, dim_param, dim_value, kv, node, reduce_mean_lastdim,
    value_info_tensor,
};
use safetensors_to_onnx::decimal::{append_decimal, decimal_string};
use safetensors_to_onnx::layers::{emit_layer, emit_rmsnorm, emit_silu};
use safetensors_to_onnx::model::{build_graph, build_model, build_nodes, ModelConfig};
use safetensors_to_onnx::names::{layer_tensor, layer_weight};
use safetensors_to_onnx::onnx::{
    AttributeProto, Dimension, DimensionValue, GraphProto, NodeProto, OperatorSetIdProto,
    StringStringEntryProto, TensorProto, TensorShapeProto, TensorTypeProto, TypeProto, TypeValue,
    ValueInfoProto,
};

fn strings(names: &[&str]) -> Vec<String> {
    names.iter().map(|s| s.to_string()).collect()
}

fn plain(op: &str, inputs: &[&str], output: &str) -> NodeProto {
    NodeProto {
        input: strings(inputs),
        output: strings(&[output]),
        op_type: Some(op.to_string()),
        attribute: vec![],
    }
}

fn mean(input: &str, output: &str) -> NodeProto {
    NodeProto {
        input: strings(&[input]),
        output: strings(&[output]),
        op_type: Some("ReduceMean".to_string()),
        attribute: vec![
            AttributeProto {
                name: Some("axes".to_string()),
                attribute_type: Some(7),
                i: None,
                ints: vec![2],
            },
            AttributeProto {
                name: Some("keepdims".to_string()),
                attribute_type: Some(2),
                i: Some(1),
                ints: vec![],
            },
        ],
    }
}

/// Executes nodes on texts: what is read from outside stands for itself.
fn execute(nodes: &[NodeProto]) -> HashMap<String, String> {
    let mut env: HashMap<String, String> = HashMap::new();
    for n in nodes {
        let args: Vec<String> =
            n.input.iter().map(|name| env.get(name).cloned().unwrap_or(name.clone())).collect();
        let op = n.op_type.clone().unwrap();
        let term =
            if op == "Identity" { args[0].clone() } else { format!("{}({})", op, args.join(",")) };
        env.insert(n.output[0].clone(), term);
    }
    env
}

fn norm(x: &str, w: &str, eps: &str) -> String {
    format!("Mul(Div({x},Sqrt(Add(ReduceMean(Mul({x},{x})),{eps}))),{w})")
}

fn block(layer: usize, x: &str, eps: &str) -> String {
    let w = |part: &str| format!("model.layers.{layer}.{part}.weight");
    let normed = norm(x, &w("input_layernorm"), eps);
    let context = format!("MatMul({normed},{})", w("self_attn.v_proj"));
    let resid = format!("Add({x},MatMul({context},{}))", w("self_attn.o_proj"));
    let post = norm(&resid, &w("post_attention_layernorm"), eps);
    let gate = format!("MatMul({post},{})", w("mlp.gate_proj"));
    let up = format!("MatMul({post},{})", w("mlp.up_proj"));
    let gated = format!("Mul(Mul({gate},Sigmoid({gate})),{up})");
    format!("Add({resid},MatMul({gated},{}))", w("mlp.down_proj"))
}

#[test]
fn numerals() {
    assert_eq!(decimal_string(0), "0");
    assert_eq!(decimal_string(9), "9");
    assert_eq!(decimal_string(10), "10");
    assert_eq!(decimal_string(1234567890), "1234567890");
    assert_eq!(decimal_string(u64::MAX), "18446744073709551615");
    let mut s = "n=".to_string();
    append_decimal(&mut s, 405);
    assert_eq!(s, "n=405");
}

#[test]
fn numerals_read_back() {
    for n in [0u64, 7, 10, 99, 100, 1 << 40, u64::MAX] {
        assert_eq!(decimal_string(n).parse::<u64>().unwrap(), n);
    }
}

#[test]
fn tensor_names() {
    assert_eq!(layer_tensor(0, "x2"), "l0_x2");
    assert_eq!(layer_tensor(17, "gate_silu"), "l17_gate_silu");
    assert_eq!(layer_weight(3, "mlp.up_proj.weight"), "model.layers.3.mlp.up_proj.weight");
}

#[test]
fn names_of_different_layers_differ() {
    assert_ne!(layer_tensor(1, "1_q"), layer_tensor(11, "q"));
    assert_ne!(layer_tensor(1, "q"), layer_tensor(10, "q"));
}

#[test]
fn message_builders() {
    assert_eq!(node("Add", strings(&["a", "b"]), strings(&["c"])), plain("Add", &["a", "b"], "c"));
    assert_eq!(
        attr_int("axis", -1),
        AttributeProto {
            name: Some("axis".to_string()),
            attribute_type: Some(2),
            i: Some(-1),
            ints: vec![],
        }
    );
    assert_eq!(
        attr_ints("perm", vec![1, 0]),
        AttributeProto {
            name: Some("perm".to_string()),
            attribute_type: Some(7),
            i: None,
            ints: vec![1, 0],
        }
    );
    assert_eq!(reduce_mean_lastdim("a", "b"), mean("a", "b"));
    assert_eq!(
        kv("offset", "12".to_string()),
        StringStringEntryProto { key: Some("offset".to_string()), value: Some("12".to_string()) }
    );
}

#[test]
fn scalar_constant() {
    let bits = 1e-5f32.to_bits();
    assert_eq!(
        const_scalar_f32("rms_eps", bits),
        TensorProto {
            dims: vec![],
            data_type: Some(1),
            float_data: vec![bits],
            name: Some("rms_eps".to_string()),
            raw_data: None,
            external_data: vec![],
            data_location: None,
        }
    );
}

#[test]
fn value_info() {
    let info = value_info_tensor("logits", 1, vec![dim_param("batch"), dim_value(32000)]);
    assert_eq!(
        info,
        ValueInfoProto {
            name: Some("logits".to_string()),
            value_type: Some(TypeProto {
                value: Some(TypeValue::TensorType(TensorTypeProto {
                    elem_type: Some(1),
                    shape: Some(TensorShapeProto {
                        dim: vec![
                            Dimension { value: Some(DimensionValue::DimParam("batch".to_string())) },
                            Dimension { value: Some(DimensionValue::DimValue(32000)) },
                        ],
                    }),
                })),
                denotation: None,
            }),
        }
    );
}

#[test]
fn rmsnorm_nodes() {
    assert_eq!(
        emit_rmsnorm(4, "x", "w", "eps", "y"),
        vec![
            plain("Mul", &["x", "x"], "l4_x2"),
            mean("l4_x2", "l4_mean"),
            plain("Add", &["l4_mean", "eps"], "l4_mean_eps"),
            plain("Sqrt", &["l4_mean_eps"], "l4_rms"),
            plain("Div", &["x", "l4_rms"], "l4_x_norm"),
            plain("Mul", &["l4_x_norm", "w"], "l4_x_scaled"),
            plain("Identity", &["l4_x_scaled"], "y"),
        ]
    );
}

#[test]
fn rmsnorm_computes_its_formula() {
    let env = execute(&emit_rmsnorm(4, "x", "w", "eps", "y"));
    assert_eq!(env["y"], norm("x", "w", "eps"));
}

#[test]
fn rmsnorm_of_its_own_scratch_name() {
    let env = execute(&emit_rmsnorm(4, "l4_x2", "w", "eps", "y"));
    assert_ne!(env["y"], norm("l4_x2", "w", "eps"));
}

#[test]
fn silu_nodes() {
    let nodes = emit_silu(2, "g", "s");
    assert_eq!(
        nodes,
        vec![plain("Sigmoid", &["g"], "l2_sigmoid"), plain("Mul", &["g", "l2_sigmoid"], "s")]
    );
    assert_eq!(execute(&nodes)["s"], "Mul(g,Sigmoid(g))");
}

#[test]
fn layer_node_list() {
    let (out, nodes) = emit_layer(7, "x", "eps");
    assert_eq!(out, "l7_x_out");
    let w = |part: &str| format!("model.layers.7.{part}.weight");
    let mut expected = emit_rmsnorm(7, "x", &w("input_layernorm"), "eps", "l7_x_norm_out");
    expected.extend(vec![
        plain("MatMul", &["l7_x_norm_out", &w("self_attn.q_proj")], "l7_q"),
        plain("MatMul", &["l7_x_norm_out", &w("self_attn.k_proj")], "l7_k"),
        plain("MatMul", &["l7_x_norm_out", &w("self_attn.v_proj")], "l7_v"),
        plain("Identity", &["l7_q"], "l7_q_rope"),
        plain("Identity", &["l7_k"], "l7_k_rope"),
        plain("Identity", &["l7_v"], "l7_attn_ctx"),
        plain("MatMul", &["l7_attn_ctx", &w("self_attn.o_proj")], "l7_attn_out"),
        plain("Add", &["x", "l7_attn_out"], "l7_x_resid1"),
    ]);
    expected.extend(emit_rmsnorm(
        7,
        "l7_x_resid1",
        &w("post_attention_layernorm"),
        "eps",
        "l7_post_norm_out",
    ));
    expected.extend(vec![
        plain("MatMul", &["l7_post_norm_out", &w("mlp.gate_proj")], "l7_gate"),
        plain("MatMul", &["l7_post_norm_out", &w("mlp.up_proj")], "l7_up"),
        plain("Sigmoid", &["l7_gate"], "l7_sigmoid"),
        plain("Mul", &["l7_gate", "l7_sigmoid"], "l7_gate_silu"),
        plain("Mul", &["l7_gate_silu", "l7_up"], "l7_gated"),
        plain("MatMul", &["l7_gated", &w("mlp.down_proj")], "l7_mlp_out"),
        plain("Add", &["l7_x_resid1", "l7_mlp_out"], "l7_x_out"),
    ]);
    assert_eq!(nodes, expected);
}

#[test]
fn layer_computes_a_block() {
    let (out, nodes) = emit_layer(0, "x", "eps");
    assert_eq!(execute(&nodes)[&out], block(0, "x", "eps"));
}

#[test]
fn decoder_computes_logits() {
    for n in [0usize, 1, 2] {
        let mut x = "Gather(model.embed_tokens.weight,input_ids)".to_string();
        for layer in 0..n {
            x = block(layer, &x, "rms_eps");
        }
        let expected = format!(
            "MatMul({},Transpose(lm_head.weight))",
            norm(&x, "model.norm.weight", "rms_eps")
        );
        assert_eq!(execute(&build_nodes(n))["logits"], expected);
    }
}

#[test]
fn decoder_node_count() {
    assert_eq!(build_nodes(0).len(), 10);
    assert_eq!(build_nodes(1).len(), 39);
    assert_eq!(build_nodes(3).len(), 97);
}

#[test]
fn decoder_ends() {
    let nodes = build_nodes(2);
    assert_eq!(nodes[0], plain("Gather", &["model.embed_tokens.weight", "input_ids"], "x"));
    assert_eq!(nodes[1].input, strings(&["x", "x"]));
    assert_eq!(nodes[30].input, strings(&["l0_x_out", "l0_x_out"]));
    assert_eq!(nodes[59], plain("Mul", &["l1_x_out", "l1_x_out"], "l999999_x2"));
    assert_eq!(
        nodes[66],
        NodeProto {
            input: strings(&["lm_head.weight"]),
            output: strings(&["lm_head_w_t"]),
            op_type: Some("Transpose".to_string()),
            attribute: vec![attr_ints("perm", vec![1, 0])],
        }
    );
    assert_eq!(nodes[67], plain("MatMul", &["x_norm_final", "lm_head_w_t"], "logits"));
}

#[test]
fn decoder_is_in_execution_order() {
    let mut written: HashSet<String> = HashSet::new();
    for n in build_nodes(3) {
        for name in &n.input {
            let outside = name.starts_with("model.")
                || name == "lm_head.weight"
                || name == "rms_eps"
                || name == "input_ids";
            assert!(outside || written.contains(name));
        }
        written.extend(n.output);
    }
}

#[test]
fn layers_write_different_names() {
    let (_, a) = emit_layer(1, "x", "eps");
    let (_, b) = emit_layer(11, "x", "eps");
    let names: HashSet<String> = a.into_iter().flat_map(|n| n.output).collect();
    assert_eq!(names.len(), 23);
    assert!(b.iter().all(|n| !names.contains(&n.output[0])));
}

#[test]
fn graph_interface() {
    let config = ModelConfig { num_hidden_layers: 1, vocab_size: 131072, rms_norm_eps: 77 };
    let graph: GraphProto = build_graph(&config, vec![const_scalar_f32("a", 1)]);
    assert_eq!(graph.name, Some("converted_model".to_string()));
    assert_eq!(graph.node, build_nodes(1));
    assert_eq!(
        graph.initializer,
        vec![const_scalar_f32("a", 1), const_scalar_f32("rms_eps", 77)]
    );
    let token =
        |name: &str| value_info_tensor(name, 7, vec![dim_param("batch"), dim_param("seq")]);
    assert_eq!(graph.input, vec![token("input_ids"), token("attention_mask"), token("position_ids")]);
    assert_eq!(
        graph.output,
        vec![value_info_tensor(
            "logits",
            1,
            vec![dim_param("batch"), dim_param("seq"), dim_value(131072)]
        )]
    );
}

#[test]
fn oversized_vocabulary_wraps() {
    let config = ModelConfig { num_hidden_layers: 0, vocab_size: usize::MAX, rms_norm_eps: 0 };
    let graph = build_graph(&config, vec![]);
    let expected = value_info_tensor(
        "logits",
        1,
        vec![dim_param("batch"), dim_param("seq"), dim_value(usize::MAX as i64)],
    );
    assert_eq!(graph.output, vec![expected]);
}

#[test]
fn model_versions() {
    let config = ModelConfig { num_hidden_layers: 0, vocab_size: 10, rms_norm_eps: 0 };
    let model = build_model(build_graph(&config, vec![]));
    assert_eq!(model.ir_version, Some(7));
    assert_eq!(
        model.opset_import,
        vec![OperatorSetIdProto { domain: Some("ai.onnx".to_string()), version: Some(17) }]
    );
    assert_eq!(model.graph, Some(build_graph(&config, vec![])));
}

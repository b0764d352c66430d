//! The graph of a whole decoder and the model around it.

use vstd::prelude::*;

use crate::builders::{
    attr_ints, const_scalar_f32, dim_param, dim_value, extent_of, node, one_name, two_names,
    value_info_tensor,
};
use crate::builders::{
    axis_extent, ints_attribute, named_axis, plain_node, scalar_tensor, sized_axis, tensor_value,
};
use crate::laws::{law_decoder, law_node_count, logits_term};
use crate::layers::{emit_layer, emit_rmsnorm, extend_nodes};
use crate::layers::{layer_nodes, layer_out, rmsnorm_nodes};
use crate::onnx::{
    Dimension, GraphProto, ModelProto, NodeProto, OperatorSetIdProto, TensorProto, ValueInfoProto,
    DATA_TYPE_FLOAT, DATA_TYPE_INT64,
};
use crate::onnx::{axes_of, elem_type_of, same_text};
use crate::onnx::{
    lemma_deep_view_push, SpecGraph, SpecModel, SpecNode, SpecOperatorSetId, SpecTensor,
    SpecValueInfo,
};
use crate::semantics::{run, value, Environment};

verus! {

/// The layer number under which the final normalisation names its tensors.
pub const FINAL_NORM_LAYER: usize = 999999;

/// What the conversion reads from the configuration of a model.
#[derive(Debug, Clone, Copy, PartialEq, Eq)]
pub struct ModelConfig {
    /// The number of transformer blocks.
    pub num_hidden_layers: usize,
    /// The number of tokens in the vocabulary.
    pub vocab_size: usize,
    /// The bit pattern of the single-precision epsilon of the normalisations.
    pub rms_norm_eps: u32,
}

/// The name of the scalar that the normalisations add to the mean square.
pub open spec fn eps_name() -> Seq<char> {
    "rms_eps"@
}

/// The name of what block `layer` reads: the embeddings, or the result of the
/// block before it.
pub open spec fn layer_input(layer: nat) -> Seq<char> {
    if layer == 0 {
        "x"@
    } else {
        layer_out((layer - 1) as nat)
    }
}

/// The embedding lookup followed by the first `n` blocks.
pub open spec fn block_nodes(n: nat) -> Seq<SpecNode>
    decreases n,
{
    if n == 0 {
        seq![
            plain_node("Gather"@, seq!["model.embed_tokens.weight"@, "input_ids"@], seq!["x"@]),
        ]
    } else {
        let layer = (n - 1) as nat;
        block_nodes(layer) + layer_nodes(layer, layer_input(layer), eps_name())
    }
}

/// The transposition of the output projection and the product with it.
pub open spec fn head_nodes() -> Seq<SpecNode> {
    seq![
        SpecNode {
            input: seq!["lm_head.weight"@],
            output: seq!["lm_head_w_t"@],
            op_type: Some("Transpose"@),
            attribute: seq![ints_attribute("perm"@, seq![1i64, 0i64])],
        },
        plain_node("MatMul"@, seq!["x_norm_final"@, "lm_head_w_t"@], seq!["logits"@]),
    ]
}

/// The normalisation of the result of the last block.
pub open spec fn final_norm_nodes(n: nat) -> Seq<SpecNode> {
    rmsnorm_nodes(
        FINAL_NORM_LAYER as nat,
        layer_input(n),
        "model.norm.weight"@,
        eps_name(),
        "x_norm_final"@,
    )
}

/// All nodes of a decoder with `n` blocks.
pub open spec fn decoder_nodes(n: nat) -> Seq<SpecNode> {
    block_nodes(n) + final_norm_nodes(n) + head_nodes()
}

/// An integer input with one row per sequence of a batch.
pub open spec fn token_input(name: Seq<char>) -> SpecValueInfo {
    tensor_value(name, DATA_TYPE_INT64, seq![named_axis("batch"@), named_axis("seq"@)])
}

/// The scores over a vocabulary of `vocab_size` tokens.
pub open spec fn logits_output(vocab_size: usize) -> SpecValueInfo {
    tensor_value(
        "logits"@,
        DATA_TYPE_FLOAT,
        seq![named_axis("batch"@), named_axis("seq"@), sized_axis(axis_extent(vocab_size))],
    )
}

/// The graph of a decoder whose weights are `initializers`.
pub open spec fn decoder_graph(config: ModelConfig, initializers: Seq<SpecTensor>) -> SpecGraph {
    SpecGraph {
        node: decoder_nodes(config.num_hidden_layers as nat),
        name: Some("converted_model"@),
        initializer: initializers.push(scalar_tensor(eps_name(), config.rms_norm_eps)),
        input: seq![
            token_input("input_ids"@),
            token_input("attention_mask"@),
            token_input("position_ids"@),
        ],
        output: seq![logits_output(config.vocab_size)],
    }
}

/// The model around a graph.
pub open spec fn model_of(graph: SpecGraph) -> SpecModel {
    SpecModel {
        ir_version: Some(7),
        opset_import: seq![
            SpecOperatorSetId { domain: Some("ai.onnx"@), version: Some(17) },
        ],
        graph: Some(graph),
    }
}

/// Builds the nodes of a decoder with `num_hidden_layers` blocks.
#[verifier::rlimit(30)]
pub fn build_nodes(num_hidden_layers: usize) -> (nodes: Vec<NodeProto>)
    ensures
        nodes.deep_view() == decoder_nodes(num_hidden_layers as nat),
        nodes@.len() == 29 * num_hidden_layers + 10,
        forall|env: Environment|
            value(#[trigger] run(env, nodes.deep_view()), "logits"@) == logits_term(
                env,
                num_hidden_layers as nat,
            ),
{
    let eps = "rms_eps";
    let mut x = "x".to_owned();
    let mut nodes = vec![
        node("Gather", two_names("model.embed_tokens.weight", "input_ids"), one_name(&x)),
    ];
    assert(nodes.deep_view() =~= block_nodes(0));
    let mut layer: usize = 0;
    while layer < num_hidden_layers
        invariant
            layer <= num_hidden_layers,
            eps@ == eps_name(),
            x@ == layer_input(layer as nat),
            nodes.deep_view() == block_nodes(layer as nat),
        decreases num_hidden_layers - layer,
    {
        let (x_next, layer_nodes) = emit_layer(layer, &x, eps);
        extend_nodes(&mut nodes, layer_nodes);
        x = x_next;
        layer = layer + 1;
    }
    extend_nodes(
        &mut nodes,
        emit_rmsnorm(FINAL_NORM_LAYER, &x, "model.norm.weight", eps, "x_norm_final"),
    );
    let perm: Vec<i64> = vec![1, 0];
    assert(perm@ =~= seq![1i64, 0i64]);
    let transpose = NodeProto {
        input: one_name("lm_head.weight"),
        output: one_name("lm_head_w_t"),
        op_type: Some("Transpose".to_owned()),
        attribute: vec![attr_ints("perm", perm)],
    };
    assert(transpose.attribute.deep_view() =~= seq![ints_attribute("perm"@, seq![1i64, 0i64])]);
    let head = vec![
        transpose,
        node("MatMul", two_names("x_norm_final", "lm_head_w_t"), one_name("logits")),
    ];
    assert(head.deep_view() =~= head_nodes());
    extend_nodes(&mut nodes, head);
    proof {
        law_node_count(num_hidden_layers as nat);
        assert forall|env: Environment|
            value(#[trigger] run(env, nodes.deep_view()), "logits"@) == logits_term(
                env,
                num_hidden_layers as nat,
            ) by {
            law_decoder(env, num_hidden_layers as nat);
        }
    }
    nodes
}

/// Describes an integer input with one row per sequence of a batch.
fn token_value(name: &str) -> (info: ValueInfoProto)
    ensures
        info.deep_view() == token_input(name@),
{
    let dims: Vec<Dimension> = vec![dim_param("batch"), dim_param("seq")];
    assert(dims.deep_view() =~= seq![named_axis("batch"@), named_axis("seq"@)]);
    value_info_tensor(name, DATA_TYPE_INT64, dims)
}

/// Describes the scores over a vocabulary of `vocab_size` tokens.
fn logits_value(vocab_size: usize) -> (info: ValueInfoProto)
    ensures
        info.deep_view() == logits_output(vocab_size),
{
    let dims: Vec<Dimension> = vec![
        dim_param("batch"),
        dim_param("seq"),
        dim_value(extent_of(vocab_size)),
    ];
    assert(dims.deep_view() =~= seq![
        named_axis("batch"@),
        named_axis("seq"@),
        sized_axis(axis_extent(vocab_size)),
    ]);
    value_info_tensor("logits", DATA_TYPE_FLOAT, dims)
}

/// Builds the graph of a decoder. The weights are `initializers`; the epsilon
/// of the normalisations is added after them.
#[verifier::rlimit(30)]
pub fn build_graph(config: &ModelConfig, initializers: Vec<TensorProto>) -> (graph: GraphProto)
    ensures
        graph.deep_view() == decoder_graph(*config, initializers.deep_view()),
        graph.node@.len() == 29 * config.num_hidden_layers + 10,
        forall|env: Environment|
            value(#[trigger] run(env, graph.node.deep_view()), "logits"@) == logits_term(
                env,
                config.num_hidden_layers as nat,
            ),
        same_text(graph.name, Some("converted_model"@)),
        graph.initializer@.len() == initializers@.len() + 1,
        graph.initializer@.drop_last() == initializers@,
        same_text(graph.initializer@.last().name, Some("rms_eps"@)),
        graph.initializer@.last().data_type == Some(1i32),
        graph.initializer@.last().float_data@ == seq![config.rms_norm_eps],
        graph.input@.len() == 3,
        same_text(graph.input@[0].name, Some("input_ids"@)),
        same_text(graph.input@[1].name, Some("attention_mask"@)),
        same_text(graph.input@[2].name, Some("position_ids"@)),
        forall|i: int|
            0 <= i < 3 ==> elem_type_of((#[trigger] graph.input@[i]).deep_view()) == Some(7i32),
        forall|i: int|
            0 <= i < 3 ==> axes_of((#[trigger] graph.input@[i]).deep_view()) == Some(
                seq![named_axis("batch"@), named_axis("seq"@)],
            ),
        graph.output@.len() == 1,
        same_text(graph.output@[0].name, Some("logits"@)),
        elem_type_of(graph.output@[0].deep_view()) == Some(1i32),
        axes_of(graph.output@[0].deep_view()) == Some(
            seq![
                named_axis("batch"@),
                named_axis("seq"@),
                sized_axis(axis_extent(config.vocab_size)),
            ],
        ),
{
    let mut initializer = initializers;
    let eps = const_scalar_f32("rms_eps", config.rms_norm_eps);
    let ghost eps_tensor = eps;
    initializer.push(eps);
    proof {
        lemma_deep_view_push(initializers, eps_tensor, initializer);
    }
    let graph = GraphProto {
        node: build_nodes(config.num_hidden_layers),
        name: Some("converted_model".to_owned()),
        initializer,
        input: vec![
            token_value("input_ids"),
            token_value("attention_mask"),
            token_value("position_ids"),
        ],
        output: vec![logits_value(config.vocab_size)],
    };
    proof {
        let spec = decoder_graph(*config, initializers.deep_view());
        assert(graph.input.deep_view() =~= spec.input);
        assert(graph.output.deep_view() =~= spec.output);
        assert(graph.initializer@.drop_last() =~= initializers@);
    }
    graph
}

/// Wraps a graph into a model of the supported format and operator versions.
pub fn build_model(graph: GraphProto) -> (model: ModelProto)
    ensures
        model.deep_view() == model_of(graph.deep_view()),
        model.graph == Some(graph),
        model.ir_version == Some(7i64),
        model.opset_import@.len() == 1,
        same_text(model.opset_import@[0].domain, Some("ai.onnx"@)),
        model.opset_import@[0].version == Some(17i64),
{
    let model = ModelProto {
        ir_version: Some(7),
        opset_import: vec![
            OperatorSetIdProto { domain: Some("ai.onnx".to_owned()), version: Some(17) },
        ],
        graph: Some(graph),
    };
    assert(model.opset_import.deep_view() =~= model_of(graph.deep_view()).opset_import);
    model
}

} // verus!

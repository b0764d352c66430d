//! The nodes of one transformer block.

use vstd::prelude::*;

use crate::builders::{last_axis_mean, plain_node};
use crate::builders::{node, one_name, reduce_mean_lastdim, two_names};
use crate::laws::law_layer_operators;
use crate::names::{layer_name, spelled, weight_name};
use crate::names::{layer_tensor, layer_weight};
use crate::onnx::NodeProto;
use crate::onnx::{lemma_deep_view_append, SpecNode};

verus! {

/// The nodes that normalise `x` by its root mean square and scale it by `w`,
/// leaving the result in `y`.
pub open spec fn rmsnorm_nodes(
    layer: nat,
    x: Seq<char>,
    w: Seq<char>,
    eps: Seq<char>,
    y: Seq<char>,
) -> Seq<SpecNode> {
    let x2 = layer_name(layer, "x2"@);
    let mean = layer_name(layer, "mean"@);
    let mean_eps = layer_name(layer, "mean_eps"@);
    let rms = layer_name(layer, "rms"@);
    let x_norm = layer_name(layer, "x_norm"@);
    let x_scaled = layer_name(layer, "x_scaled"@);
    seq![
        plain_node("Mul"@, seq![x, x], seq![x2]),
        last_axis_mean(x2, mean),
        plain_node("Add"@, seq![mean, eps], seq![mean_eps]),
        plain_node("Sqrt"@, seq![mean_eps], seq![rms]),
        plain_node("Div"@, seq![x, rms], seq![x_norm]),
        plain_node("Mul"@, seq![x_norm, w], seq![x_scaled]),
        plain_node("Identity"@, seq![x_scaled], seq![y]),
    ]
}

/// The nodes that multiply `x` by its sigmoid, leaving the result in `y`.
pub open spec fn silu_nodes(layer: nat, x: Seq<char>, y: Seq<char>) -> Seq<SpecNode> {
    let sig = layer_name(layer, "sigmoid"@);
    seq![
        plain_node("Sigmoid"@, seq![x], seq![sig]),
        plain_node("Mul"@, seq![x, sig], seq![y]),
    ]
}

/// The nodes between the two normalisations of a block: projections, rotary
/// and attention placeholders, output projection and residual sum.
pub open spec fn attention_nodes(layer: nat, x_in: Seq<char>) -> Seq<SpecNode> {
    let x_norm = layer_name(layer, "x_norm_out"@);
    let q = layer_name(layer, "q"@);
    let k = layer_name(layer, "k"@);
    let v = layer_name(layer, "v"@);
    let attn_ctx = layer_name(layer, "attn_ctx"@);
    let attn_out = layer_name(layer, "attn_out"@);
    seq![
        plain_node("MatMul"@, seq![x_norm, weight_name(layer, "self_attn.q_proj.weight"@)], seq![q]),
        plain_node("MatMul"@, seq![x_norm, weight_name(layer, "self_attn.k_proj.weight"@)], seq![k]),
        plain_node("MatMul"@, seq![x_norm, weight_name(layer, "self_attn.v_proj.weight"@)], seq![v]),
        plain_node("Identity"@, seq![q], seq![layer_name(layer, "q_rope"@)]),
        plain_node("Identity"@, seq![k], seq![layer_name(layer, "k_rope"@)]),
        plain_node("Identity"@, seq![v], seq![attn_ctx]),
        plain_node(
            "MatMul"@,
            seq![attn_ctx, weight_name(layer, "self_attn.o_proj.weight"@)],
            seq![attn_out],
        ),
        plain_node("Add"@, seq![x_in, attn_out], seq![layer_name(layer, "x_resid1"@)]),
    ]
}

/// The two projections that open the feed-forward network of a block.
pub open spec fn gate_up_nodes(layer: nat) -> Seq<SpecNode> {
    let post_norm = layer_name(layer, "post_norm_out"@);
    seq![
        plain_node(
            "MatMul"@,
            seq![post_norm, weight_name(layer, "mlp.gate_proj.weight"@)],
            seq![layer_name(layer, "gate"@)],
        ),
        plain_node(
            "MatMul"@,
            seq![post_norm, weight_name(layer, "mlp.up_proj.weight"@)],
            seq![layer_name(layer, "up"@)],
        ),
    ]
}

/// The last three nodes of a block: gating, down projection, residual sum.
pub open spec fn down_nodes(layer: nat) -> Seq<SpecNode> {
    let gated = layer_name(layer, "gated"@);
    let mlp_out = layer_name(layer, "mlp_out"@);
    seq![
        plain_node(
            "Mul"@,
            seq![layer_name(layer, "gate_silu"@), layer_name(layer, "up"@)],
            seq![gated],
        ),
        plain_node(
            "MatMul"@,
            seq![gated, weight_name(layer, "mlp.down_proj.weight"@)],
            seq![mlp_out],
        ),
        plain_node(
            "Add"@,
            seq![layer_name(layer, "x_resid1"@), mlp_out],
            seq![layer_out(layer)],
        ),
    ]
}

/// The name under which a block leaves its result.
pub open spec fn layer_out(layer: nat) -> Seq<char> {
    layer_name(layer, "x_out"@)
}

/// All nodes of the block `layer` that reads `x_in`.
pub open spec fn layer_nodes(layer: nat, x_in: Seq<char>, eps: Seq<char>) -> Seq<SpecNode> {
    rmsnorm_nodes(
        layer,
        x_in,
        weight_name(layer, "input_layernorm.weight"@),
        eps,
        layer_name(layer, "x_norm_out"@),
    ) + attention_nodes(layer, x_in) + rmsnorm_nodes(
        layer,
        layer_name(layer, "x_resid1"@),
        weight_name(layer, "post_attention_layernorm.weight"@),
        eps,
        layer_name(layer, "post_norm_out"@),
    ) + gate_up_nodes(layer) + silu_nodes(
        layer,
        layer_name(layer, "gate"@),
        layer_name(layer, "gate_silu"@),
    ) + down_nodes(layer)
}

/// RMSNorm: `y = x * w / sqrt(mean(x^2) + eps)`.
pub fn emit_rmsnorm(layer: usize, x: &str, w: &str, eps_name: &str, y: &str) -> (nodes: Vec<NodeProto>)
    ensures
        nodes.deep_view() == rmsnorm_nodes(layer as nat, x@, w@, eps_name@, y@),
        nodes@.len() == 7,
{
    let x2 = layer_tensor(layer, "x2");
    let mean = layer_tensor(layer, "mean");
    let mean_eps = layer_tensor(layer, "mean_eps");
    let rms = layer_tensor(layer, "rms");
    let x_norm = layer_tensor(layer, "x_norm");
    let x_scaled = layer_tensor(layer, "x_scaled");
    let nodes = vec![
        node("Mul", two_names(x, x), one_name(&x2)),
        reduce_mean_lastdim(&x2, &mean),
        node("Add", two_names(&mean, eps_name), one_name(&mean_eps)),
        node("Sqrt", one_name(&mean_eps), one_name(&rms)),
        node("Div", two_names(x, &rms), one_name(&x_norm)),
        node("Mul", two_names(&x_norm, w), one_name(&x_scaled)),
        node("Identity", one_name(&x_scaled), one_name(y)),
    ];
    assert(nodes.deep_view() =~= rmsnorm_nodes(layer as nat, x@, w@, eps_name@, y@));
    nodes
}

/// SiLU: `y = x * sigmoid(x)`.
pub fn emit_silu(layer: usize, x: &str, y: &str) -> (nodes: Vec<NodeProto>)
    ensures
        nodes.deep_view() == silu_nodes(layer as nat, x@, y@),
        nodes@.len() == 2,
{
    let sig = layer_tensor(layer, "sigmoid");
    let nodes = vec![
        node("Sigmoid", one_name(x), one_name(&sig)),
        node("Mul", two_names(x, &sig), one_name(y)),
    ];
    assert(nodes.deep_view() =~= silu_nodes(layer as nat, x@, y@));
    nodes
}

/// Builds `attention_nodes`.
fn emit_attention(layer: usize, x_in: &str, x_norm: &str, x_resid1: &str) -> (nodes: Vec<NodeProto>)
    requires
        x_norm@ == layer_name(layer as nat, "x_norm_out"@),
        x_resid1@ == layer_name(layer as nat, "x_resid1"@),
    ensures
        nodes.deep_view() == attention_nodes(layer as nat, x_in@),
{
    let q_w = layer_weight(layer, "self_attn.q_proj.weight");
    let k_w = layer_weight(layer, "self_attn.k_proj.weight");
    let v_w = layer_weight(layer, "self_attn.v_proj.weight");
    let o_w = layer_weight(layer, "self_attn.o_proj.weight");
    let q = layer_tensor(layer, "q");
    let k = layer_tensor(layer, "k");
    let v = layer_tensor(layer, "v");
    let q_rope = layer_tensor(layer, "q_rope");
    let k_rope = layer_tensor(layer, "k_rope");
    let attn_ctx = layer_tensor(layer, "attn_ctx");
    let attn_out = layer_tensor(layer, "attn_out");
    let nodes = vec![
        node("MatMul", two_names(x_norm, &q_w), one_name(&q)),
        node("MatMul", two_names(x_norm, &k_w), one_name(&k)),
        node("MatMul", two_names(x_norm, &v_w), one_name(&v)),
        // Rotary position embedding is not applied: queries and keys pass through.
        node("Identity", one_name(&q), one_name(&q_rope)),
        node("Identity", one_name(&k), one_name(&k_rope)),
        // Attention is not applied: the values pass through.
        node("Identity", one_name(&v), one_name(&attn_ctx)),
        node("MatMul", two_names(&attn_ctx, &o_w), one_name(&attn_out)),
        node("Add", two_names(x_in, &attn_out), one_name(x_resid1)),
    ];
    assert(nodes.deep_view() =~= attention_nodes(layer as nat, x_in@));
    nodes
}

/// One transformer block. Returns the name of its result and its nodes.
#[verifier::rlimit(30)]
pub fn emit_layer(layer: usize, x_in: &str, eps_name: &str) -> (out: (String, Vec<NodeProto>))
    ensures
        out.0@ == layer_out(layer as nat),
        spelled(out.0@, "l"@, layer as nat, '_', "x_out"@),
        out.1.deep_view() == layer_nodes(layer as nat, x_in@, eps_name@),
        out.1@.len() == 29,
{
    let in_norm_w = layer_weight(layer, "input_layernorm.weight");
    let post_norm_w = layer_weight(layer, "post_attention_layernorm.weight");
    let gate_w = layer_weight(layer, "mlp.gate_proj.weight");
    let up_w = layer_weight(layer, "mlp.up_proj.weight");
    let down_w = layer_weight(layer, "mlp.down_proj.weight");

    let x_norm = layer_tensor(layer, "x_norm_out");
    let x_resid1 = layer_tensor(layer, "x_resid1");
    let post_norm = layer_tensor(layer, "post_norm_out");
    let gate = layer_tensor(layer, "gate");
    let up = layer_tensor(layer, "up");
    let gate_silu = layer_tensor(layer, "gate_silu");
    let gated = layer_tensor(layer, "gated");
    let mlp_out = layer_tensor(layer, "mlp_out");
    let x_out = layer_tensor(layer, "x_out");

    let mut nodes = emit_rmsnorm(layer, x_in, &in_norm_w, eps_name, &x_norm);
    extend_nodes(&mut nodes, emit_attention(layer, x_in, &x_norm, &x_resid1));
    extend_nodes(&mut nodes, emit_rmsnorm(layer, &x_resid1, &post_norm_w, eps_name, &post_norm));
    let gate_up = vec![
        node("MatMul", two_names(&post_norm, &gate_w), one_name(&gate)),
        node("MatMul", two_names(&post_norm, &up_w), one_name(&up)),
    ];
    assert(gate_up.deep_view() =~= gate_up_nodes(layer as nat));
    extend_nodes(&mut nodes, gate_up);
    extend_nodes(&mut nodes, emit_silu(layer, &gate, &gate_silu));
    let down = vec![
        node("Mul", two_names(&gate_silu, &up), one_name(&gated)),
        node("MatMul", two_names(&gated, &down_w), one_name(&mlp_out)),
        node("Add", two_names(&x_resid1, &mlp_out), one_name(&x_out)),
    ];
    assert(down.deep_view() =~= down_nodes(layer as nat));
    extend_nodes(&mut nodes, down);
    proof {
        law_layer_operators(layer as nat, x_in@, eps_name@);
        assert(nodes@.len() == nodes.deep_view().len());
    }
    (x_out, nodes)
}

/// Appends `tail` to `nodes`.
pub(crate) fn extend_nodes(nodes: &mut Vec<NodeProto>, tail: Vec<NodeProto>)
    ensures
        final(nodes).deep_view() == old(nodes).deep_view() + tail.deep_view(),
{
    let mut rest = tail;
    nodes.append(&mut rest);
    proof {
        lemma_deep_view_append(*old(nodes), tail, *nodes);
    }
}

} // verus!

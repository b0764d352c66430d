//! What holds of every decoder graph: what it computes, that its nodes stand
//! in execution order, and how its names and nodes are shared out among the
//! blocks.

use vstd::prelude::*;

use crate::builders::{ints_attribute, law_axis_extent};
use crate::decimal::{decimal, is_digit, lemma_decimal_digits};
use crate::layers::{
    attention_nodes, down_nodes, gate_up_nodes, layer_nodes, layer_out, rmsnorm_nodes, silu_nodes,
};
use crate::model::{
    block_nodes, decoder_graph, decoder_nodes, eps_name, final_norm_nodes, head_nodes, layer_input,
    model_of, ModelConfig, FINAL_NORM_LAYER,
};
use crate::names::{
    law_weight_name_injective, layer_name, lemma_layer_name_injective, weight_name,
};
use crate::onnx::{axes_of, elem_type_of, SpecDimensionValue, SpecGraph, SpecNode, SpecTensor};
use crate::semantics::{
    after, attention_scratch, binary, block_term, law_layer, law_rmsnorm, lemma_operators,
    lemma_part_shapes, lemma_parts_differ, lemma_run_concat, lemma_run_frame, lemma_run_steps, lemma_step_binary,
    lemma_weight_is_no_layer_name, rms_norm_term, rmsnorm_scratch, run, step, value,
    Environment, Term,
};

verus! {

/// What the blocks below `n` compute from the token embeddings.
pub open spec fn hidden_term(env: Environment, n: nat) -> Term
    decreases n,
{
    if n == 0 {
        binary("Gather"@, value(env, "model.embed_tokens.weight"@), value(env, "input_ids"@))
    } else {
        let layer = (n - 1) as nat;
        block_term(env, layer, hidden_term(env, layer), value(env, eps_name()))
    }
}

/// The matrix transposition of a term.
pub open spec fn transpose_term(a: Term) -> Term {
    Term::Apply {
        op: "Transpose"@,
        attribute: seq![ints_attribute("perm"@, seq![1i64, 0i64])],
        args: seq![a],
    }
}

/// What a decoder with `n` blocks computes: the normalised result of the last
/// block, times the transposed output projection.
pub open spec fn logits_term(env: Environment, n: nat) -> Term {
    binary(
        "MatMul"@,
        rms_norm_term(
            hidden_term(env, n),
            value(env, "model.norm.weight"@),
            value(env, eps_name()),
        ),
        transpose_term(value(env, "lm_head.weight"@)),
    )
}

/// The part of the layer that each node of a block writes.
pub open spec fn layer_parts() -> Seq<Seq<char>> {
    seq![
        "x2"@,
        "mean"@,
        "mean_eps"@,
        "rms"@,
        "x_norm"@,
        "x_scaled"@,
        "x_norm_out"@,
        "q"@,
        "k"@,
        "v"@,
        "q_rope"@,
        "k_rope"@,
        "attn_ctx"@,
        "attn_out"@,
        "x_resid1"@,
        "x2"@,
        "mean"@,
        "mean_eps"@,
        "rms"@,
        "x_norm"@,
        "x_scaled"@,
        "post_norm_out"@,
        "gate"@,
        "up"@,
        "sigmoid"@,
        "gate_silu"@,
        "gated"@,
        "mlp_out"@,
        "x_out"@,
    ]
}

/// A block has 29 nodes, and each writes one tensor, named after the layer.
#[verifier::rlimit(30)]
pub proof fn law_layer_writes(layer: nat, x: Seq<char>, eps: Seq<char>)
    ensures
        layer_nodes(layer, x, eps).len() == layer_parts().len(),
        forall|i: int|
            0 <= i < layer_parts().len() ==> (#[trigger] layer_nodes(layer, x, eps)[i]).output
                == seq![layer_name(layer, layer_parts()[i])],
{
    let n1 = rmsnorm_nodes(
        layer,
        x,
        weight_name(layer, "input_layernorm.weight"@),
        eps,
        layer_name(layer, "x_norm_out"@),
    );
    let n2 = attention_nodes(layer, x);
    let n3 = rmsnorm_nodes(
        layer,
        layer_name(layer, "x_resid1"@),
        weight_name(layer, "post_attention_layernorm.weight"@),
        eps,
        layer_name(layer, "post_norm_out"@),
    );
    let n4 = gate_up_nodes(layer);
    let n5 = silu_nodes(layer, layer_name(layer, "gate"@), layer_name(layer, "gate_silu"@));
    let n6 = down_nodes(layer);
    let nodes = layer_nodes(layer, x, eps);
    assert forall|i: int| 0 <= i < layer_parts().len() implies (#[trigger] nodes[i]).output == seq![
        layer_name(layer, layer_parts()[i]),
    ] by {
        if i < 7 {
            assert(nodes[i] == n1[i]);
        } else if i < 15 {
            assert(nodes[i] == n2[i - 7]);
        } else if i < 22 {
            assert(nodes[i] == n3[i - 15]);
        } else if i < 24 {
            assert(nodes[i] == n4[i - 22]);
        } else if i < 26 {
            assert(nodes[i] == n5[i - 24]);
        } else {
            assert(nodes[i] == n6[i - 26]);
        }
    }
}

/// Two different blocks never write the same name, whatever they read.
pub proof fn law_layers_disjoint(
    a: nat,
    xa: Seq<char>,
    eps_a: Seq<char>,
    b: nat,
    xb: Seq<char>,
    eps_b: Seq<char>,
    i: int,
    j: int,
)
    requires
        a != b,
        0 <= i < layer_nodes(a, xa, eps_a).len(),
        0 <= j < layer_nodes(b, xb, eps_b).len(),
    ensures
        layer_nodes(a, xa, eps_a)[i].output[0] != layer_nodes(b, xb, eps_b)[j].output[0],
{
    law_layer_writes(a, xa, eps_a);
    law_layer_writes(b, xb, eps_b);
    let s = layer_parts()[i];
    let t = layer_parts()[j];
    if layer_name(a, s) == layer_name(b, t) {
        lemma_layer_name_injective(a, s, b, t);
    }
}

/// A decoder with `n` blocks has `29 * n + 10` nodes.
pub proof fn law_node_count(n: nat)
    ensures
        decoder_nodes(n).len() == 29 * n + 10,
{
    lemma_block_count(n);
}

proof fn lemma_block_count(n: nat)
    ensures
        block_nodes(n).len() == 29 * n + 1,
    decreases n,
{
    if n > 0 {
        let layer = (n - 1) as nat;
        lemma_block_count(layer);
        law_layer_writes(layer, layer_input(layer), eps_name());
    }
}

/// A name with another first letter, or without a digit behind it, is that of
/// no intermediate tensor of a layer.
proof fn lemma_no_layer_name(name: Seq<char>)
    requires
        name.len() > 1,
        name[0] != 'l' || !is_digit(name[1]),
    ensures
        forall|l: nat, p: Seq<char>| name != #[trigger] layer_name(l, p),
{
    assert forall|l: nat, p: Seq<char>| name != #[trigger] layer_name(l, p) by {
        lemma_decimal_digits(l);
        assert(layer_name(l, p)[0] == 'l');
        assert(layer_name(l, p)[1] == decimal(l)[0]);
    }
}

/// The fixed names of a decoder are no names of intermediate tensors of a
/// layer, and those that could be confused differ.
proof fn lemma_fixed_names()
    ensures
        forall|l: nat, p: Seq<char>| "x"@ != #[trigger] layer_name(l, p),
        forall|l: nat, p: Seq<char>| "input_ids"@ != #[trigger] layer_name(l, p),
        forall|l: nat, p: Seq<char>| eps_name() != #[trigger] layer_name(l, p),
        forall|l: nat, p: Seq<char>| "model.norm.weight"@ != #[trigger] layer_name(l, p),
        forall|l: nat, p: Seq<char>| "lm_head.weight"@ != #[trigger] layer_name(l, p),
        forall|l: nat, p: Seq<char>| weight_name(l, p) != "x"@,
        eps_name() != "x"@,
        "model.norm.weight"@ != "x"@,
        "lm_head.weight"@ != "x"@,
        "lm_head.weight"@ != "x_norm_final"@,
        "x_norm_final"@ != "lm_head_w_t"@,
{
    reveal_strlit("x");
    reveal_strlit("input_ids");
    reveal_strlit("rms_eps");
    reveal_strlit("model.norm.weight");
    reveal_strlit("lm_head.weight");
    reveal_strlit("x_norm_final");
    reveal_strlit("lm_head_w_t");
    reveal_strlit("model.layers.");
    assert("x"@.len() == 1);
    assert("x"@[0] == 'x');
    assert forall|l: nat, p: Seq<char>| "x"@ != #[trigger] layer_name(l, p) by {
        assert(layer_name(l, p)[0] == 'l');
    }
    lemma_no_layer_name("input_ids"@);
    lemma_no_layer_name(eps_name());
    lemma_no_layer_name("model.norm.weight"@);
    assert("lm_head.weight"@[1] == 'm');
    lemma_no_layer_name("lm_head.weight"@);
    assert forall|l: nat, p: Seq<char>| weight_name(l, p) != "x"@ by {
        assert(weight_name(l, p)[0] == 'm');
    }
    assert("x_norm_final"@[0] == 'x');
    assert("lm_head_w_t"@[0] == 'l');
    assert("lm_head.weight"@[0] == 'l');
}

/// The blocks leave alone every name that is none of theirs.
proof fn lemma_blocks_frame(env: Environment, n: nat, name: Seq<char>)
    requires
        name != "x"@,
        forall|l: nat, p: Seq<char>| name != #[trigger] layer_name(l, p),
    ensures
        value(run(env, block_nodes(n)), name) == value(env, name),
    decreases n,
{
    if n == 0 {
        lemma_run_frame(env, block_nodes(0), name);
    } else {
        let layer = (n - 1) as nat;
        let nodes = layer_nodes(layer, layer_input(layer), eps_name());
        lemma_blocks_frame(env, layer, name);
        lemma_run_concat(env, block_nodes(layer), nodes);
        law_layer_writes(layer, layer_input(layer), eps_name());
        lemma_run_frame(run(env, block_nodes(layer)), nodes, name);
    }
}

/// What a block reads is not among the names it writes first.
proof fn lemma_layer_input_kept(layer: nat)
    ensures
        !attention_scratch(layer).contains(layer_input(layer)),
        !attention_scratch(layer).contains(eps_name()),
        eps_name() != layer_name(layer, "x_resid1"@),
{
    lemma_fixed_names();
    let all = attention_scratch(layer);
    let parts = layer_parts();
    assert forall|i: int| 0 <= i < all.len() implies #[trigger] all[i] != layer_input(layer)
        && all[i] != eps_name() by {
        assert(all[i] == layer_name(layer, parts[i]));
        if layer > 0 && all[i] == layer_input(layer) {
            lemma_layer_name_injective(layer, parts[i], (layer - 1) as nat, "x_out"@);
        }
    }
}

/// The blocks compute `hidden_term`.
proof fn lemma_blocks(env: Environment, n: nat)
    ensures
        value(run(env, block_nodes(n)), layer_input(n)) == hidden_term(env, n),
    decreases n,
{
    lemma_operators();
    if n == 0 {
        lemma_run_steps(env, block_nodes(0));
        lemma_step_binary(
            env,
            "Gather"@,
            "model.embed_tokens.weight"@,
            "input_ids"@,
            "x"@,
        );
        assert(after(env, block_nodes(0), 1) == step(env, block_nodes(0)[0]));
    } else {
        let layer = (n - 1) as nat;
        let nodes = layer_nodes(layer, layer_input(layer), eps_name());
        let before = run(env, block_nodes(layer));
        lemma_blocks(env, layer);
        lemma_run_concat(env, block_nodes(layer), nodes);
        lemma_layer_input_kept(layer);
        law_layer(before, layer, layer_input(layer), eps_name());
        lemma_fixed_names();
        lemma_blocks_frame(env, layer, eps_name());
        assert forall|p: Seq<char>|
            value(before, #[trigger] weight_name(layer, p)) == value(env, weight_name(layer, p)) by {
            assert forall|l: nat, t: Seq<char>| weight_name(layer, p) != #[trigger] layer_name(l, t) by {
                lemma_weight_is_no_layer_name(layer, p, l, t);
            }
            lemma_blocks_frame(env, layer, weight_name(layer, p));
        }
    }
}

/// What a decoder computes: executing its nodes leaves, under the name of the
/// graph output, the product of the normalised result of the last block with
/// the transposed output projection, where each block is applied to the result
/// of the one before it and the first to the token embeddings.
#[verifier::rlimit(30)]
pub proof fn law_decoder(env: Environment, n: nat)
    ensures
        value(run(env, decoder_nodes(n)), "logits"@) == logits_term(env, n),
{
    let e1 = run(env, block_nodes(n));
    let e2 = run(e1, final_norm_nodes(n));
    lemma_run_concat(env, block_nodes(n), final_norm_nodes(n));
    lemma_run_concat(env, block_nodes(n) + final_norm_nodes(n), head_nodes());
    lemma_blocks(env, n);
    lemma_fixed_names();
    lemma_operators();
    lemma_parts_differ();
    lemma_blocks_frame(env, n, "model.norm.weight"@);
    lemma_blocks_frame(env, n, eps_name());
    lemma_blocks_frame(env, n, "lm_head.weight"@);
    let norm = FINAL_NORM_LAYER as nat;
    let scratch = rmsnorm_scratch(norm);
    let parts = layer_parts();
    assert forall|i: int| 0 <= i < 4 implies #[trigger] scratch[i] != layer_input(n) by {
        assert(scratch[i] == layer_name(norm, parts[i]));
        if n > 0 && scratch[i] == layer_input(n) {
            lemma_layer_name_injective(norm, parts[i], (n - 1) as nat, "x_out"@);
        }
    }
    law_rmsnorm(
        e1,
        norm,
        layer_input(n),
        "model.norm.weight"@,
        eps_name(),
        "x_norm_final"@,
    );
    lemma_run_frame(e1, final_norm_nodes(n), "lm_head.weight"@);
    let head = head_nodes();
    lemma_run_steps(e2, head);
    let e3 = after(e2, head, 1);
    assert(run(e2, head) == step(e3, head[1]));
    assert(head[0].input.map_values(|name: Seq<char>| value(e2, name)) =~= seq![
        value(e2, "lm_head.weight"@),
    ]);
    lemma_step_binary(e3, "MatMul"@, "x_norm_final"@, "lm_head_w_t"@, "logits"@);
}

/// Whether one of the first `k` nodes writes `name`.
pub open spec fn written(nodes: Seq<SpecNode>, k: int, name: Seq<char>) -> bool {
    exists|j: int| 0 <= j < k && (#[trigger] nodes[j]).output.contains(name)
}

/// Whether everything that a node reads comes from outside or was written by
/// a node before it.
pub open spec fn in_execution_order(
    nodes: Seq<SpecNode>,
    outside: spec_fn(Seq<char>) -> bool,
) -> bool {
    forall|i: int, k: int|
        #![trigger nodes[i].input[k]]
        0 <= i < nodes.len() && 0 <= k < nodes[i].input.len() ==> outside(nodes[i].input[k])
            || written(nodes, i, nodes[i].input[k])
}

/// The weights of a layer.
pub open spec fn is_layer_weight(layer: nat, name: Seq<char>) -> bool {
    ||| name == weight_name(layer, "input_layernorm.weight"@)
    ||| name == weight_name(layer, "post_attention_layernorm.weight"@)
    ||| name == weight_name(layer, "self_attn.q_proj.weight"@)
    ||| name == weight_name(layer, "self_attn.k_proj.weight"@)
    ||| name == weight_name(layer, "self_attn.v_proj.weight"@)
    ||| name == weight_name(layer, "self_attn.o_proj.weight"@)
    ||| name == weight_name(layer, "mlp.gate_proj.weight"@)
    ||| name == weight_name(layer, "mlp.up_proj.weight"@)
    ||| name == weight_name(layer, "mlp.down_proj.weight"@)
}

/// What a decoder with `n` blocks needs from outside: the token ids, the
/// embeddings, the weights of its layers, those of the final normalisation and
/// of the output projection, and the epsilon.
pub open spec fn is_decoder_source(n: nat, name: Seq<char>) -> bool {
    ||| name == "input_ids"@
    ||| name == "model.embed_tokens.weight"@
    ||| name == "model.norm.weight"@
    ||| name == "lm_head.weight"@
    ||| name == eps_name()
    ||| exists|layer: nat| layer < n && #[trigger] is_layer_weight(layer, name)
}

/// Nodes in execution order, followed by nodes that may also read what the
/// former write.
proof fn lemma_order_concat(
    a: Seq<SpecNode>,
    b: Seq<SpecNode>,
    outside: spec_fn(Seq<char>) -> bool,
)
    requires
        in_execution_order(a, outside),
        in_execution_order(b, |name: Seq<char>| outside(name) || written(a, a.len() as int, name)),
    ensures
        in_execution_order(a + b, outside),
{
    let ab = a + b;
    let m = a.len() as int;
    assert forall|i: int, k: int|
        #![trigger ab[i].input[k]]
        0 <= i < ab.len() && 0 <= k < ab[i].input.len() implies outside(ab[i].input[k]) || written(
        ab,
        i,
        ab[i].input[k],
    ) by {
        let name = ab[i].input[k];
        if i < m {
            assert(ab[i] == a[i]);
            assert(a[i].input[k] == name);
            if !outside(name) {
                let j = choose|j: int| 0 <= j < i && (#[trigger] a[j]).output.contains(name);
                assert(ab[j] == a[j]);
            }
        } else {
            assert(ab[i] == b[i - m]);
            assert(b[i - m].input[k] == name);
            if !outside(name) {
                if written(a, m, name) {
                    let j = choose|j: int| 0 <= j < m && (#[trigger] a[j]).output.contains(name);
                    assert(ab[j] == a[j]);
                } else {
                    let j = choose|j: int|
                        0 <= j < i - m && (#[trigger] b[j]).output.contains(name);
                    assert(ab[j + m] == b[j]);
                }
            }
        }
    }
}

/// Nodes stay in execution order when more comes from outside.
proof fn lemma_order_weaken(
    nodes: Seq<SpecNode>,
    fewer: spec_fn(Seq<char>) -> bool,
    more: spec_fn(Seq<char>) -> bool,
)
    requires
        in_execution_order(nodes, fewer),
        forall|name: Seq<char>| #[trigger] fewer(name) ==> more(name),
    ensures
        in_execution_order(nodes, more),
{
    assert forall|i: int, k: int|
        #![trigger nodes[i].input[k]]
        0 <= i < nodes.len() && 0 <= k < nodes[i].input.len() implies more(nodes[i].input[k])
        || written(nodes, i, nodes[i].input[k]) by {
        assert(fewer(nodes[i].input[k]) || written(nodes, i, nodes[i].input[k]));
    }
}

/// A name that one of the first `k` nodes writes is written.
proof fn lemma_written(nodes: Seq<SpecNode>, j: int, k: int, name: Seq<char>)
    requires
        0 <= j < k <= nodes.len(),
        nodes[j].output == seq![name],
    ensures
        written(nodes, k, name),
{
    assert(nodes[j].output[0] == name);
}

/// A normalisation needs what it normalises, its weight and the epsilon.
proof fn lemma_rmsnorm_order(
    layer: nat,
    x: Seq<char>,
    w: Seq<char>,
    eps: Seq<char>,
    y: Seq<char>,
)
    ensures
        in_execution_order(
            rmsnorm_nodes(layer, x, w, eps, y),
            |name: Seq<char>| name == x || name == w || name == eps,
        ),
        written(rmsnorm_nodes(layer, x, w, eps, y), 7, y),
{
    let nodes = rmsnorm_nodes(layer, x, w, eps, y);
    let s = rmsnorm_scratch(layer);
    lemma_written(nodes, 0, 1, s[0]);
    lemma_written(nodes, 1, 2, s[1]);
    lemma_written(nodes, 2, 3, s[2]);
    lemma_written(nodes, 3, 4, s[3]);
    lemma_written(nodes, 4, 5, s[4]);
    lemma_written(nodes, 5, 6, s[5]);
    lemma_written(nodes, 6, 7, y);
}

/// The rest of the first half of a block needs its input, the normalised input
/// and the attention weights.
proof fn lemma_attention_order(layer: nat, x: Seq<char>)
    ensures
        in_execution_order(
            attention_nodes(layer, x),
            |name: Seq<char>|
                name == x || name == layer_name(layer, "x_norm_out"@) || is_layer_weight(
                    layer,
                    name,
                ),
        ),
        written(attention_nodes(layer, x), 8, layer_name(layer, "x_resid1"@)),
{
    let nodes = attention_nodes(layer, x);
    lemma_written(nodes, 0, 3, layer_name(layer, "q"@));
    lemma_written(nodes, 1, 4, layer_name(layer, "k"@));
    lemma_written(nodes, 2, 5, layer_name(layer, "v"@));
    lemma_written(nodes, 5, 6, layer_name(layer, "attn_ctx"@));
    lemma_written(nodes, 6, 7, layer_name(layer, "attn_out"@));
    lemma_written(nodes, 7, 8, layer_name(layer, "x_resid1"@));
}

/// A block needs its input, the epsilon and its own weights.
#[verifier::rlimit(30)]
pub proof fn law_layer_order(layer: nat, x: Seq<char>, eps: Seq<char>)
    ensures
        in_execution_order(
            layer_nodes(layer, x, eps),
            |name: Seq<char>| name == x || name == eps || is_layer_weight(layer, name),
        ),
{
    let outside = |name: Seq<char>| name == x || name == eps || is_layer_weight(layer, name);
    let x_norm = layer_name(layer, "x_norm_out"@);
    let resid = layer_name(layer, "x_resid1"@);
    let post = layer_name(layer, "post_norm_out"@);
    let gate = layer_name(layer, "gate"@);
    let up = layer_name(layer, "up"@);
    let gate_silu = layer_name(layer, "gate_silu"@);
    let w1 = weight_name(layer, "input_layernorm.weight"@);
    let w2 = weight_name(layer, "post_attention_layernorm.weight"@);
    let n1 = rmsnorm_nodes(layer, x, w1, eps, x_norm);
    let n2 = attention_nodes(layer, x);
    let n3 = rmsnorm_nodes(layer, resid, w2, eps, post);
    let n4 = gate_up_nodes(layer);
    let n5 = silu_nodes(layer, gate, gate_silu);
    let n6 = down_nodes(layer);

    lemma_rmsnorm_order(layer, x, w1, eps, x_norm);
    lemma_order_weaken(n1, |name: Seq<char>| name == x || name == w1 || name == eps, outside);

    let p1 = n1;
    lemma_attention_order(layer, x);
    lemma_order_weaken(
        n2,
        |name: Seq<char>| name == x || name == x_norm || is_layer_weight(layer, name),
        |name: Seq<char>| outside(name) || written(p1, p1.len() as int, name),
    );
    lemma_order_concat(p1, n2, outside);

    let p2 = n1 + n2;
    lemma_written(p2, 14, p2.len() as int, resid);
    lemma_rmsnorm_order(layer, resid, w2, eps, post);
    lemma_order_weaken(
        n3,
        |name: Seq<char>| name == resid || name == w2 || name == eps,
        |name: Seq<char>| outside(name) || written(p2, p2.len() as int, name),
    );
    lemma_order_concat(p2, n3, outside);

    let p3 = p2 + n3;
    lemma_written(p3, 21, p3.len() as int, post);
    assert(in_execution_order(
        n4,
        |name: Seq<char>| outside(name) || written(p3, p3.len() as int, name),
    ));
    lemma_order_concat(p3, n4, outside);

    let p4 = p3 + n4;
    lemma_written(p4, 22, p4.len() as int, gate);
    lemma_written(n5, 0, 1, layer_name(layer, "sigmoid"@));
    assert(in_execution_order(
        n5,
        |name: Seq<char>| outside(name) || written(p4, p4.len() as int, name),
    ));
    lemma_order_concat(p4, n5, outside);

    let p5 = p4 + n5;
    lemma_written(p5, 14, p5.len() as int, resid);
    lemma_written(p5, 23, p5.len() as int, up);
    lemma_written(p5, 25, p5.len() as int, gate_silu);
    lemma_written(n6, 0, 1, layer_name(layer, "gated"@));
    lemma_written(n6, 1, 2, layer_name(layer, "mlp_out"@));
    assert(in_execution_order(
        n6,
        |name: Seq<char>| outside(name) || written(p5, p5.len() as int, name),
    ));
    lemma_order_concat(p5, n6, outside);
}

/// The blocks stand in execution order, and write what the next block reads.
proof fn lemma_blocks_order(n: nat)
    ensures
        in_execution_order(block_nodes(n), |name: Seq<char>| is_decoder_source(n, name)),
        written(block_nodes(n), block_nodes(n).len() as int, layer_input(n)),
    decreases n,
{
    let outside = |name: Seq<char>| is_decoder_source(n, name);
    if n == 0 {
        lemma_written(block_nodes(0), 0, 1, "x"@);
    } else {
        let layer = (n - 1) as nat;
        let x = layer_input(layer);
        let before = block_nodes(layer);
        let nodes = layer_nodes(layer, x, eps_name());
        lemma_blocks_order(layer);
        assert forall|name: Seq<char>| is_decoder_source(layer, name) implies #[trigger] outside(
            name,
        ) by {
            if exists|l: nat| l < layer && #[trigger] is_layer_weight(l, name) {
                let l = choose|l: nat| l < layer && #[trigger] is_layer_weight(l, name);
                assert(l < n && is_layer_weight(l, name));
            }
        }
        lemma_order_weaken(before, |name: Seq<char>| is_decoder_source(layer, name), outside);
        law_layer_order(layer, x, eps_name());
        lemma_order_weaken(
            nodes,
            |name: Seq<char>| name == x || name == eps_name() || is_layer_weight(layer, name),
            |name: Seq<char>| outside(name) || written(before, before.len() as int, name),
        );
        lemma_order_concat(before, nodes, outside);
        law_layer_writes(layer, x, eps_name());
        assert(block_nodes(n)[before.len() as int + 28] == nodes[28]);
        lemma_written(
            block_nodes(n),
            before.len() as int + 28,
            block_nodes(n).len() as int,
            layer_input(n),
        );
    }
}

/// The nodes of a decoder stand in execution order: whatever a node reads is a
/// weight, the epsilon or the token ids, or was written by a node before it.
pub proof fn law_decoder_order(n: nat)
    ensures
        in_execution_order(decoder_nodes(n), |name: Seq<char>| is_decoder_source(n, name)),
{
    let outside = |name: Seq<char>| is_decoder_source(n, name);
    let x = layer_input(n);
    let w = "model.norm.weight"@;
    let p1 = block_nodes(n);
    let norm = final_norm_nodes(n);
    let head = head_nodes();
    lemma_blocks_order(n);
    lemma_rmsnorm_order(FINAL_NORM_LAYER as nat, x, w, eps_name(), "x_norm_final"@);
    lemma_order_weaken(
        norm,
        |name: Seq<char>| name == x || name == w || name == eps_name(),
        |name: Seq<char>| outside(name) || written(p1, p1.len() as int, name),
    );
    lemma_order_concat(p1, norm, outside);
    let p2 = p1 + norm;
    assert(p2[p1.len() as int + 6] == norm[6]);
    lemma_written(p2, p1.len() as int + 6, p2.len() as int, "x_norm_final"@);
    lemma_written(head, 0, 1, "lm_head_w_t"@);
    assert(in_execution_order(
        head,
        |name: Seq<char>| outside(name) || written(p2, p2.len() as int, name),
    ));
    lemma_order_concat(p2, head, outside);
}

/// The operators of a normalisation, in order.
pub open spec fn rmsnorm_operators() -> Seq<Seq<char>> {
    seq!["Mul"@, "ReduceMean"@, "Add"@, "Sqrt"@, "Div"@, "Mul"@, "Identity"@]
}

/// A normalisation has seven nodes. The first six write its scratch names, one
/// each, and the last its result; only the mean has attributes.
pub proof fn law_rmsnorm_shape(
    layer: nat,
    x: Seq<char>,
    w: Seq<char>,
    eps: Seq<char>,
    y: Seq<char>,
)
    ensures
        rmsnorm_nodes(layer, x, w, eps, y).len() == 7,
        forall|i: int|
            #![trigger rmsnorm_nodes(layer, x, w, eps, y)[i]]
            0 <= i < 7 ==> {
                let n = rmsnorm_nodes(layer, x, w, eps, y)[i];
                &&& n.op_type == Some(rmsnorm_operators()[i])
                &&& n.output == seq![
                    if i < 6 {
                        layer_name(layer, layer_parts()[i])
                    } else {
                        y
                    },
                ]
                &&& n.attribute.len() == (if i == 1 {
                    2int
                } else {
                    0int
                })
            },
{
}

/// SiLU has two nodes: one writes the sigmoid, the other the result.
pub proof fn law_silu_shape(layer: nat, x: Seq<char>, y: Seq<char>)
    ensures
        ({
            let nodes = silu_nodes(layer, x, y);
            &&& nodes.len() == 2
            &&& nodes[0].op_type == Some("Sigmoid"@)
            &&& nodes[0].output == seq![layer_name(layer, "sigmoid"@)]
            &&& nodes[0].attribute.len() == 0
            &&& nodes[1].op_type == Some("Mul"@)
            &&& nodes[1].output == seq![y]
            &&& nodes[1].attribute.len() == 0
        }),
{
}

/// The operators of a block, in order.
pub open spec fn layer_operators() -> Seq<Seq<char>> {
    seq![
        "Mul"@,
        "ReduceMean"@,
        "Add"@,
        "Sqrt"@,
        "Div"@,
        "Mul"@,
        "Identity"@,
        "MatMul"@,
        "MatMul"@,
        "MatMul"@,
        "Identity"@,
        "Identity"@,
        "Identity"@,
        "MatMul"@,
        "Add"@,
        "Mul"@,
        "ReduceMean"@,
        "Add"@,
        "Sqrt"@,
        "Div"@,
        "Mul"@,
        "Identity"@,
        "MatMul"@,
        "MatMul"@,
        "Sigmoid"@,
        "Mul"@,
        "Mul"@,
        "MatMul"@,
        "Add"@,
    ]
}

/// Every block applies the same operators in the same order, whatever its
/// number and whatever it reads, and only its two means have attributes.
#[verifier::rlimit(30)]
pub proof fn law_layer_operators(layer: nat, x: Seq<char>, eps: Seq<char>)
    ensures
        layer_nodes(layer, x, eps).len() == 29,
        forall|i: int|
            #![trigger layer_nodes(layer, x, eps)[i]]
            0 <= i < 29 ==> {
                let n = layer_nodes(layer, x, eps)[i];
                &&& n.op_type == Some(layer_operators()[i])
                &&& n.attribute.len() == (if i == 1 || i == 16 {
                    2int
                } else {
                    0int
                })
            },
{
    let n1 = rmsnorm_nodes(
        layer,
        x,
        weight_name(layer, "input_layernorm.weight"@),
        eps,
        layer_name(layer, "x_norm_out"@),
    );
    let n2 = attention_nodes(layer, x);
    let n3 = rmsnorm_nodes(
        layer,
        layer_name(layer, "x_resid1"@),
        weight_name(layer, "post_attention_layernorm.weight"@),
        eps,
        layer_name(layer, "post_norm_out"@),
    );
    let n4 = gate_up_nodes(layer);
    let n5 = silu_nodes(layer, layer_name(layer, "gate"@), layer_name(layer, "gate_silu"@));
    let n6 = down_nodes(layer);
    let nodes = layer_nodes(layer, x, eps);
    assert forall|i: int| #![trigger nodes[i]] 0 <= i < 29 implies nodes[i].op_type == Some(
        layer_operators()[i],
    ) && nodes[i].attribute.len() == (if i == 1 || i == 16 {
        2int
    } else {
        0int
    }) by {
        if i < 7 {
            assert(nodes[i] == n1[i]);
        } else if i < 15 {
            assert(nodes[i] == n2[i - 7]);
        } else if i < 22 {
            assert(nodes[i] == n3[i - 15]);
        } else if i < 24 {
            assert(nodes[i] == n4[i - 22]);
        } else if i < 26 {
            assert(nodes[i] == n5[i - 24]);
        } else {
            assert(nodes[i] == n6[i - 26]);
        }
    }
}

/// Whether some node reads `name`.
pub open spec fn reads(nodes: Seq<SpecNode>, name: Seq<char>) -> bool {
    exists|i: int| 0 <= i < nodes.len() && (#[trigger] nodes[i]).input.contains(name)
}

/// A block reads each of the nine weights of its own layer.
pub proof fn law_layer_reads_own_weights(
    layer: nat,
    x: Seq<char>,
    eps: Seq<char>,
    name: Seq<char>,
)
    requires
        is_layer_weight(layer, name),
    ensures
        reads(layer_nodes(layer, x, eps), name),
{
    let nodes = layer_nodes(layer, x, eps);
    assert(nodes[5].input[1] == weight_name(layer, "input_layernorm.weight"@));
    assert(nodes[7].input[1] == weight_name(layer, "self_attn.q_proj.weight"@));
    assert(nodes[8].input[1] == weight_name(layer, "self_attn.k_proj.weight"@));
    assert(nodes[9].input[1] == weight_name(layer, "self_attn.v_proj.weight"@));
    assert(nodes[13].input[1] == weight_name(layer, "self_attn.o_proj.weight"@));
    assert(nodes[20].input[1] == weight_name(layer, "post_attention_layernorm.weight"@));
    assert(nodes[22].input[1] == weight_name(layer, "mlp.gate_proj.weight"@));
    assert(nodes[23].input[1] == weight_name(layer, "mlp.up_proj.weight"@));
    assert(nodes[27].input[1] == weight_name(layer, "mlp.down_proj.weight"@));
}

/// A block reads no weight of another layer, unless that is what it is given
/// as its input or as its epsilon.
pub proof fn law_layer_reads_no_other_weights(
    layer: nat,
    x: Seq<char>,
    eps: Seq<char>,
    other: nat,
    part: Seq<char>,
)
    requires
        other != layer,
        weight_name(other, part) != x,
        weight_name(other, part) != eps,
    ensures
        !reads(layer_nodes(layer, x, eps), weight_name(other, part)),
{
    let nodes = layer_nodes(layer, x, eps);
    let name = weight_name(other, part);
    if reads(nodes, name) {
        let i = choose|i: int| 0 <= i < nodes.len() && (#[trigger] nodes[i]).input.contains(name);
        let k = choose|k: int| 0 <= k < nodes[i].input.len() && nodes[i].input[k] == name;
        law_layer_order(layer, x, eps);
        law_layer_writes(layer, x, eps);
        assert(nodes[i].input[k] == name);
        if written(nodes, i, name) {
            let j = choose|j: int| 0 <= j < i && (#[trigger] nodes[j]).output.contains(name);
            lemma_weight_is_no_layer_name(other, part, layer, layer_parts()[j]);
        } else {
            assert(is_layer_weight(layer, name));
            let own = choose|own: Seq<char>| name == #[trigger] weight_name(layer, own);
            law_weight_name_injective(other, part, layer, own);
        }
    }
}

/// The 29 nodes at the place of block `k`, behind the embedding lookup and the
/// blocks below `k`.
pub open spec fn nth_block(nodes: Seq<SpecNode>, k: nat) -> Seq<SpecNode> {
    nodes.subrange((1 + 29 * k) as int, (30 + 29 * k) as int)
}

/// The blocks below `n` contain each block at its place.
proof fn lemma_block_at(n: nat, k: nat)
    requires
        k < n,
    ensures
        block_nodes(n).len() == 29 * n + 1,
        nth_block(block_nodes(n), k) == layer_nodes(
            k,
            layer_input(k),
            eps_name(),
        ),
    decreases n,
{
    let layer = (n - 1) as nat;
    lemma_block_count(n);
    lemma_block_count(layer);
    law_layer_writes(layer, layer_input(layer), eps_name());
    let last = layer_nodes(layer, layer_input(layer), eps_name());
    if k == layer {
        assert(nth_block(block_nodes(n), k) =~= last);
    } else {
        lemma_block_at(layer, k);
        assert(nth_block(block_nodes(n), k) =~= nth_block(block_nodes(layer), k));
    }
}

/// What stands behind the blocks does not move them.
proof fn lemma_nth_block_prefix(blocks: Seq<SpecNode>, tail: Seq<SpecNode>, k: nat)
    requires
        30 + 29 * k <= blocks.len(),
    ensures
        nth_block(blocks + tail, k) == nth_block(blocks, k),
        (blocks + tail)[(29 * k) as int] == blocks[(29 * k) as int],
        (blocks + tail)[(29 * k + 29) as int] == nth_block(blocks, k)[28],
        k > 0 ==> blocks[(29 * k) as int] == nth_block(blocks, (k - 1) as nat)[28],
{
    assert(nth_block(blocks + tail, k) =~= nth_block(blocks, k));
}

/// The last node of a block writes its result.
proof fn lemma_block_result_name(n: nat, k: nat)
    requires
        k < n,
    ensures
        nth_block(block_nodes(n), k)[28].output[0] == layer_name(k, "x_out"@),
{
    lemma_block_at(n, k);
    law_layer_writes(k, layer_input(k), eps_name());
    assert(nth_block(block_nodes(n), k)[28].output == seq![layer_name(k, layer_parts()[28])]);
}

/// A decoder looks the tokens up, then applies every one of its blocks, each
/// numbered by its place: block `k` reads what the node before it wrote, and
/// its nodes are those that block `k` has on its own.
#[verifier::spinoff_prover]
#[verifier::rlimit(40)]
pub proof fn law_decoder_blocks(n: nat, k: nat)
    requires
        k < n,
    ensures
        ({
            let nodes = decoder_nodes(n);
            let x = nodes[(29 * k) as int].output[0];
            &&& nodes.len() == 29 * n + 10
            &&& nth_block(nodes, k) == layer_nodes(k, x, "rms_eps"@)
            &&& nodes[(29 * k + 29) as int].output[0] == layer_name(k, "x_out"@)
        }),
{
    let blocks = block_nodes(n);
    let tail = final_norm_nodes(n) + head_nodes();
    law_node_count(n);
    lemma_block_at(n, k);
    lemma_block_result_name(n, k);
    lemma_nth_block_prefix(blocks, tail, k);
    assert(decoder_nodes(n) =~= blocks + tail);
    if k == 0 {
        lemma_blocks_start(n);
    } else {
        lemma_block_result_name(n, (k - 1) as nat);
    }
}

/// The first node is the embedding lookup.
proof fn lemma_blocks_start(n: nat)
    ensures
        block_nodes(n).len() > 0,
        block_nodes(n)[0] == block_nodes(0)[0],
    decreases n,
{
    if n > 0 {
        lemma_blocks_start((n - 1) as nat);
    }
}

/// Two decoders agree up to the last block that both have.
pub proof fn law_decoders_agree(m: nat, n: nat)
    requires
        m <= n,
    ensures
        decoder_nodes(m).take((29 * m + 1) as int) == decoder_nodes(n).take((29 * m + 1) as int),
    decreases n,
{
    law_node_count(m);
    law_node_count(n);
    lemma_block_count(m);
    lemma_block_count(n);
    let k = (29 * m + 1) as int;
    assert(decoder_nodes(n).take(k) =~= block_nodes(n).take(k));
    assert(decoder_nodes(m).take(k) =~= block_nodes(m).take(k));
    if m < n {
        let layer = (n - 1) as nat;
        law_decoders_agree(m, layer);
        law_node_count(layer);
        lemma_block_count(layer);
        assert(decoder_nodes(layer).take(k) =~= block_nodes(layer).take(k));
        assert(block_nodes(n).take(k) =~= block_nodes(layer).take(k));
    }
}

/// What surrounds the blocks: the lookup of the token ids in the embeddings in
/// front, and behind them the normalisation, the transposed output projection
/// and the product of the two.
#[verifier::rlimit(30)]
pub proof fn law_decoder_ends(n: nat)
    ensures
        ({
            let nodes = decoder_nodes(n);
            let last = nodes.len() - 1;
            &&& nodes[0].op_type == Some("Gather"@)
            &&& nodes[0].input == seq!["model.embed_tokens.weight"@, "input_ids"@]
            &&& nodes[0].output == seq!["x"@]
            &&& nodes.subrange((29 * n + 1) as int, (29 * n + 8) as int) == rmsnorm_nodes(
                999999,
                nodes[(29 * n) as int].output[0],
                "model.norm.weight"@,
                "rms_eps"@,
                "x_norm_final"@,
            )
            &&& nodes[last - 1].op_type == Some("Transpose"@)
            &&& nodes[last - 1].input == seq!["lm_head.weight"@]
            &&& nodes[last - 1].output == seq!["lm_head_w_t"@]
            &&& nodes[last - 1].attribute.len() == 1
            &&& nodes[last - 1].attribute[0].name == Some("perm"@)
            &&& nodes[last - 1].attribute[0].ints == seq![1i64, 0i64]
            &&& nodes[last].op_type == Some("MatMul"@)
            &&& nodes[last].input == seq!["x_norm_final"@, "lm_head_w_t"@]
            &&& nodes[last].output == seq!["logits"@]
        }),
{
    law_node_count(n);
    lemma_block_count(n);
    lemma_blocks_start(n);
    let nodes = decoder_nodes(n);
    if n > 0 {
        let k = (n - 1) as nat;
        law_decoder_blocks(n, k);
        assert(29 * k + 29 == 29 * n);
    }
    assert(nodes.subrange((29 * n + 1) as int, (29 * n + 8) as int) =~= final_norm_nodes(n));
    assert(nodes[(29 * n + 8) as int] == head_nodes()[0]);
    assert(nodes[(29 * n + 9) as int] == head_nodes()[1]);
}

/// The result of a block is still there when later blocks have run.
proof fn lemma_block_result_kept(env: Environment, n: nat, k: nat)
    requires
        k < n,
    ensures
        value(run(env, block_nodes(n)), layer_out(k)) == hidden_term(env, k + 1),
    decreases n,
{
    let layer = (n - 1) as nat;
    if k == layer {
        lemma_blocks(env, n);
    } else {
        lemma_block_result_kept(env, layer, k);
        let nodes = layer_nodes(layer, layer_input(layer), eps_name());
        lemma_run_concat(env, block_nodes(layer), nodes);
        law_layer_writes(layer, layer_input(layer), eps_name());
        assert forall|i: int| 0 <= i < nodes.len() implies (#[trigger] nodes[i]).output[0]
            != layer_out(k) by {
            if layer_name(layer, layer_parts()[i]) == layer_out(k) {
                lemma_layer_name_injective(layer, layer_parts()[i], k, "x_out"@);
            }
        }
        lemma_run_frame(run(env, block_nodes(layer)), nodes, layer_out(k));
    }
}

/// Executing a decoder leaves the result of every one of its blocks under the
/// name of that block: block `k` applied to the result of the blocks below it.
pub proof fn law_decoder_block_results(env: Environment, n: nat, k: nat)
    requires
        k < n,
    ensures
        value(run(env, decoder_nodes(n)), layer_name(k, "x_out"@)) == block_term(
            env,
            k,
            hidden_term(env, k),
            value(env, "rms_eps"@),
        ),
{
    let e1 = run(env, block_nodes(n));
    let e2 = run(e1, final_norm_nodes(n));
    let name = layer_name(k, "x_out"@);
    lemma_run_concat(env, block_nodes(n), final_norm_nodes(n));
    lemma_run_concat(env, block_nodes(n) + final_norm_nodes(n), head_nodes());
    lemma_block_result_kept(env, n, k);
    lemma_part_shapes();
    let norm = FINAL_NORM_LAYER as nat;
    law_rmsnorm_shape(norm, layer_input(n), "model.norm.weight"@, eps_name(), "x_norm_final"@);
    reveal_strlit("x_norm_final");
    reveal_strlit("lm_head_w_t");
    reveal_strlit("logits");
    assert("x_norm_final"@[0] == 'x');
    lemma_no_layer_name("x_norm_final"@);
    assert("lm_head_w_t"@[1] == 'm');
    lemma_no_layer_name("lm_head_w_t"@);
    assert("logits"@[1] == 'o');
    lemma_no_layer_name("logits"@);
    let last = final_norm_nodes(n);
    assert forall|i: int| 0 <= i < last.len() implies (#[trigger] last[i]).output[0] != name by {
        if i < 6 && layer_name(norm, layer_parts()[i]) == name {
            lemma_layer_name_injective(norm, layer_parts()[i], k, "x_out"@);
        }
    }
    lemma_run_frame(e1, last, name);
    lemma_run_frame(e2, head_nodes(), name);
}

/// Whatever the configuration and the weights, the graph of a model computes
/// the logits of a decoder with as many blocks as the configuration says, and
/// has the nodes for just that many.
pub proof fn law_graph_decodes(config: ModelConfig, initializers: Seq<SpecTensor>, env: Environment)
    ensures
        ({
            let graph = decoder_graph(config, initializers);
            &&& graph.node.len() == 29 * config.num_hidden_layers + 10
            &&& value(run(env, graph.node), "logits"@) == logits_term(
                env,
                config.num_hidden_layers as nat,
            )
        }),
{
    law_node_count(config.num_hidden_layers as nat);
    law_decoder(env, config.num_hidden_layers as nat);
}

/// Every block that the configuration asks for is in the graph, with its own
/// number, and its result is there after execution.
pub proof fn law_graph_blocks(
    config: ModelConfig,
    initializers: Seq<SpecTensor>,
    env: Environment,
    k: nat,
)
    requires
        k < config.num_hidden_layers,
    ensures
        ({
            let nodes = decoder_graph(config, initializers).node;
            let x = nodes[(29 * k) as int].output[0];
            &&& nth_block(nodes, k) == layer_nodes(k, x, "rms_eps"@)
            &&& value(run(env, nodes), layer_name(k, "x_out"@)) == block_term(
                env,
                k,
                hidden_term(env, k),
                value(env, "rms_eps"@),
            )
        }),
{
    law_node_count(config.num_hidden_layers as nat);
    law_decoder_blocks(config.num_hidden_layers as nat, k);
    law_decoder_block_results(env, config.num_hidden_layers as nat, k);
}

/// Whatever the configuration, a graph takes token ids, attention mask and
/// position ids, which are integers with a row per sequence of the batch, and
/// gives logits, which are floating-point numbers, one for each token of the
/// vocabulary.
pub proof fn law_graph_interface(config: ModelConfig, initializers: Seq<SpecTensor>)
    ensures
        ({
            let graph = decoder_graph(config, initializers);
            let names = seq!["input_ids"@, "attention_mask"@, "position_ids"@];
            let axes = axes_of(graph.output[0])->0;
            &&& graph.name == Some("converted_model"@)
            &&& graph.input.len() == 3
            &&& forall|i: int|
                #![trigger graph.input[i]]
                0 <= i < 3 ==> {
                    &&& graph.input[i].name == Some(names[i])
                    &&& elem_type_of(graph.input[i]) == Some(7i32)
                    &&& axes_of(graph.input[i]) is Some
                    &&& (axes_of(graph.input[i])->0).len() == 2
                    &&& (axes_of(graph.input[i])->0)[0].value == Some(
                        SpecDimensionValue::DimParam("batch"@),
                    )
                    &&& (axes_of(graph.input[i])->0)[1].value == Some(
                        SpecDimensionValue::DimParam("seq"@),
                    )
                }
            &&& graph.output.len() == 1
            &&& graph.output[0].name == Some("logits"@)
            &&& elem_type_of(graph.output[0]) == Some(1i32)
            &&& axes_of(graph.output[0]) is Some
            &&& axes.len() == 3
            &&& axes[0].value == Some(SpecDimensionValue::DimParam("batch"@))
            &&& axes[1].value == Some(SpecDimensionValue::DimParam("seq"@))
            &&& axes[2].value is Some
            &&& axes[2].value->0 is DimValue
            &&& (axes[2].value->0->DimValue_0 - config.vocab_size) % 0x1_0000_0000_0000_0000 == 0
        }),
{
    law_axis_extent(config.vocab_size);
}

/// Whatever the configuration, a graph holds all the weights it is given, in
/// their order and unchanged, and behind them one more initializer: the
/// epsilon of the configuration, under the name that the normalisations read.
pub proof fn law_graph_initializers(config: ModelConfig, initializers: Seq<SpecTensor>)
    ensures
        ({
            let graph = decoder_graph(config, initializers);
            let eps = graph.initializer.last();
            &&& graph.initializer.len() == initializers.len() + 1
            &&& forall|i: int|
                0 <= i < initializers.len() ==> #[trigger] graph.initializer[i] == initializers[i]
            &&& eps.name == Some("rms_eps"@)
            &&& eps.data_type == Some(1i32)
            &&& eps.dims.len() == 0
            &&& eps.float_data == seq![config.rms_norm_eps]
            &&& eps.raw_data is None
            &&& eps.external_data.len() == 0
            &&& eps.data_location is None
        }),
{
}

/// A model holds the graph it is made of, and states the versions of the
/// format and of the operator set.
pub proof fn law_model(graph: SpecGraph)
    ensures
        model_of(graph).graph == Some(graph),
        model_of(graph).ir_version == Some(7i64),
        model_of(graph).opset_import.len() == 1,
        model_of(graph).opset_import[0].domain == Some("ai.onnx"@),
        model_of(graph).opset_import[0].version == Some(17i64),
{
}

/// How the nodes of a block are wired outside its normalisations: what each
/// tensor of the layer is made from, for every layer, and which of the nine
/// weights goes into which tensor.
#[verifier::rlimit(30)]
pub proof fn law_layer_wiring(layer: nat, x: Seq<char>, eps: Seq<char>, i: int)
    requires
        0 <= i < layer_nodes(layer, x, eps).len(),
    ensures
        ({
            let nodes = layer_nodes(layer, x, eps);
            &&& nodes[i].output[0] == layer_name(layer, "q"@) ==> nodes[i].input == seq![
                layer_name(layer, "x_norm_out"@),
                weight_name(layer, "self_attn.q_proj.weight"@),
            ]
            &&& nodes[i].output[0] == layer_name(layer, "k"@) ==> nodes[i].input == seq![
                layer_name(layer, "x_norm_out"@),
                weight_name(layer, "self_attn.k_proj.weight"@),
            ]
            &&& nodes[i].output[0] == layer_name(layer, "v"@) ==> nodes[i].input == seq![
                layer_name(layer, "x_norm_out"@),
                weight_name(layer, "self_attn.v_proj.weight"@),
            ]
            &&& nodes[i].output[0] == layer_name(layer, "q_rope"@) ==> nodes[i].input == seq![
                layer_name(layer, "q"@),
            ]
            &&& nodes[i].output[0] == layer_name(layer, "k_rope"@) ==> nodes[i].input == seq![
                layer_name(layer, "k"@),
            ]
            &&& nodes[i].output[0] == layer_name(layer, "attn_ctx"@) ==> nodes[i].input == seq![
                layer_name(layer, "v"@),
            ]
            &&& nodes[i].output[0] == layer_name(layer, "attn_out"@) ==> nodes[i].input == seq![
                layer_name(layer, "attn_ctx"@),
                weight_name(layer, "self_attn.o_proj.weight"@),
            ]
            &&& nodes[i].output[0] == layer_name(layer, "x_resid1"@) ==> nodes[i].input == seq![
                x,
                layer_name(layer, "attn_out"@),
            ]
            &&& nodes[i].output[0] == layer_name(layer, "gate"@) ==> nodes[i].input == seq![
                layer_name(layer, "post_norm_out"@),
                weight_name(layer, "mlp.gate_proj.weight"@),
            ]
            &&& nodes[i].output[0] == layer_name(layer, "up"@) ==> nodes[i].input == seq![
                layer_name(layer, "post_norm_out"@),
                weight_name(layer, "mlp.up_proj.weight"@),
            ]
            &&& nodes[i].output[0] == layer_name(layer, "sigmoid"@) ==> nodes[i].input == seq![
                layer_name(layer, "gate"@),
            ]
            &&& nodes[i].output[0] == layer_name(layer, "gate_silu"@) ==> nodes[i].input == seq![
                layer_name(layer, "gate"@),
                layer_name(layer, "sigmoid"@),
            ]
            &&& nodes[i].output[0] == layer_name(layer, "gated"@) ==> nodes[i].input == seq![
                layer_name(layer, "gate_silu"@),
                layer_name(layer, "up"@),
            ]
            &&& nodes[i].output[0] == layer_name(layer, "mlp_out"@) ==> nodes[i].input == seq![
                layer_name(layer, "gated"@),
                weight_name(layer, "mlp.down_proj.weight"@),
            ]
            &&& nodes[i].output[0] == layer_name(layer, "x_out"@) ==> nodes[i].input == seq![
                layer_name(layer, "x_resid1"@),
                layer_name(layer, "mlp_out"@),
            ]
        }),
{
    let nodes = layer_nodes(layer, x, eps);
    law_layer_writes(layer, x, eps);
    lemma_part_shapes();
    assert forall|p: Seq<char>, t: Seq<char>|
        #![trigger layer_name(layer, p), layer_name(layer, t)]
        layer_name(layer, p) == layer_name(layer, t) implies p == t by {
        lemma_layer_name_injective(layer, p, layer, t);
    }
    assert(nodes[i].output[0] == layer_name(layer, layer_parts()[i]));
    let n2 = attention_nodes(layer, x);
    let n4 = gate_up_nodes(layer);
    let n5 = silu_nodes(layer, layer_name(layer, "gate"@), layer_name(layer, "gate_silu"@));
    let n6 = down_nodes(layer);
    if i < 7 {
    } else if i < 15 {
        assert(nodes[i] == n2[i - 7]);
    } else if i < 22 {
    } else if i < 24 {
        assert(nodes[i] == n4[i - 22]);
    } else if i < 26 {
        assert(nodes[i] == n5[i - 24]);
    } else {
        assert(nodes[i] == n6[i - 26]);
    }
}

/// A block normalises twice: first its input, by the first weight of the
/// layer, then the first residual sum, by the second.
#[verifier::rlimit(30)]
pub proof fn law_layer_norms(layer: nat, x: Seq<char>, eps: Seq<char>)
    ensures
        layer_nodes(layer, x, eps).subrange(0, 7) == rmsnorm_nodes(
            layer,
            x,
            weight_name(layer, "input_layernorm.weight"@),
            eps,
            layer_name(layer, "x_norm_out"@),
        ),
        layer_nodes(layer, x, eps).subrange(15, 22) == rmsnorm_nodes(
            layer,
            layer_name(layer, "x_resid1"@),
            weight_name(layer, "post_attention_layernorm.weight"@),
            eps,
            layer_name(layer, "post_norm_out"@),
        ),
{
    let nodes = layer_nodes(layer, x, eps);
    assert(nodes.subrange(0, 7) =~= rmsnorm_nodes(
        layer,
        x,
        weight_name(layer, "input_layernorm.weight"@),
        eps,
        layer_name(layer, "x_norm_out"@),
    ));
    assert(nodes.subrange(15, 22) =~= rmsnorm_nodes(
        layer,
        layer_name(layer, "x_resid1"@),
        weight_name(layer, "post_attention_layernorm.weight"@),
        eps,
        layer_name(layer, "post_norm_out"@),
    ));
}

/// How the nodes of a normalisation are wired: each reads what the one before
/// it wrote, and besides that the epsilon is added, the input divided and the
/// weight multiplied.
pub proof fn law_rmsnorm_wiring(
    layer: nat,
    x: Seq<char>,
    w: Seq<char>,
    eps: Seq<char>,
    y: Seq<char>,
)
    ensures
        ({
            let nodes = rmsnorm_nodes(layer, x, w, eps, y);
            &&& nodes[0].input == seq![x, x]
            &&& nodes[1].input == nodes[0].output
            &&& nodes[2].input == nodes[1].output + seq![eps]
            &&& nodes[3].input == nodes[2].output
            &&& nodes[4].input == seq![x] + nodes[3].output
            &&& nodes[5].input == nodes[4].output + seq![w]
            &&& nodes[6].input == nodes[5].output
        }),
{
    let nodes = rmsnorm_nodes(layer, x, w, eps, y);
    assert(nodes[2].input =~= nodes[1].output + seq![eps]);
    assert(nodes[4].input =~= seq![x] + nodes[3].output);
    assert(nodes[5].input =~= nodes[4].output + seq![w]);
}

} // verus!

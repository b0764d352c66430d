//! What a graph computes, as a symbolic expression, and what the emitted
//! graphs compute.

use vstd::prelude::*;

use crate::builders::{last_axis_mean_attributes, plain_node};
use crate::layers::{
    attention_nodes, down_nodes, gate_up_nodes, layer_nodes, layer_out, rmsnorm_nodes, silu_nodes,
};
use crate::names::{layer_name, lemma_layer_name_injective, weight_name};
use crate::onnx::{SpecAttribute, SpecNode};

verus! {

/// A symbolic tensor expression.
pub enum Term {
    /// A tensor that no node has written.
    Leaf(Seq<char>),
    /// The result of an operator.
    Apply { op: Seq<char>, attribute: Seq<SpecAttribute>, args: Seq<Term> },
}

/// An operator without attributes applied to two terms.
pub open spec fn binary(op: Seq<char>, a: Term, b: Term) -> Term {
    Term::Apply { op, attribute: Seq::empty(), args: seq![a, b] }
}

/// An operator without attributes applied to one term.
pub open spec fn unary(op: Seq<char>, a: Term) -> Term {
    Term::Apply { op, attribute: Seq::empty(), args: seq![a] }
}

/// The mean over the last axis.
pub open spec fn mean_term(a: Term) -> Term {
    Term::Apply { op: "ReduceMean"@, attribute: last_axis_mean_attributes(), args: seq![a] }
}

/// `x / sqrt(mean(x * x) + eps) * w`.
pub open spec fn rms_norm_term(x: Term, w: Term, eps: Term) -> Term {
    let rms = unary("Sqrt"@, binary("Add"@, mean_term(binary("Mul"@, x, x)), eps));
    binary("Mul"@, binary("Div"@, x, rms), w)
}

/// `x * sigmoid(x)`.
pub open spec fn silu_term(x: Term) -> Term {
    binary("Mul"@, x, unary("Sigmoid"@, x))
}

/// What has been written under each name so far.
pub type Environment = Map<Seq<char>, Term>;

/// What a node reads under a name: what was written there last, or the tensor
/// of that name from outside the graph.
pub open spec fn value(env: Environment, name: Seq<char>) -> Term {
    if env.contains_key(name) {
        env[name]
    } else {
        Term::Leaf(name)
    }
}

/// What a node computes. `Identity` passes its input on.
pub open spec fn node_term(env: Environment, n: SpecNode) -> Term {
    if n.op_type == Some("Identity"@) {
        value(env, n.input[0])
    } else {
        Term::Apply {
            op: n.op_type->0,
            attribute: n.attribute,
            args: n.input.map_values(|name: Seq<char>| value(env, name)),
        }
    }
}

/// The effect of one node.
pub open spec fn step(env: Environment, n: SpecNode) -> Environment {
    env.insert(n.output[0], node_term(env, n))
}

/// The effect of executing nodes in order.
pub open spec fn run(env: Environment, nodes: Seq<SpecNode>) -> Environment
    decreases nodes.len(),
{
    if nodes.len() == 0 {
        env
    } else {
        step(run(env, nodes.drop_last()), nodes.last())
    }
}

/// The effect of the first `k` nodes.
pub(crate) open spec fn after(env: Environment, nodes: Seq<SpecNode>, k: int) -> Environment {
    run(env, nodes.take(k))
}

/// Executing nodes one at a time.
pub(crate) proof fn lemma_run_steps(env: Environment, nodes: Seq<SpecNode>)
    ensures
        after(env, nodes, 0) == env,
        forall|k: int|
            0 < k <= nodes.len() ==> #[trigger] after(env, nodes, k) == step(
                after(env, nodes, k - 1),
                nodes[k - 1],
            ),
        after(env, nodes, nodes.len() as int) == run(env, nodes),
{
    assert forall|k: int| 0 < k <= nodes.len() implies #[trigger] after(env, nodes, k) == step(
        after(env, nodes, k - 1),
        nodes[k - 1],
    ) by {
        assert(nodes.take(k).drop_last() =~= nodes.take(k - 1));
    }
    assert(nodes.take(nodes.len() as int) =~= nodes);
}

/// Executing a concatenation is executing one part after the other.
pub proof fn lemma_run_concat(env: Environment, a: Seq<SpecNode>, b: Seq<SpecNode>)
    ensures
        run(env, a + b) == run(run(env, a), b),
    decreases b.len(),
{
    if b.len() == 0 {
        assert(a + b =~= a);
    } else {
        lemma_run_concat(env, a, b.drop_last());
        assert((a + b).drop_last() =~= a + b.drop_last());
    }
}

/// Executing nodes changes nothing under a name that none of them writes.
pub proof fn lemma_run_frame(env: Environment, nodes: Seq<SpecNode>, name: Seq<char>)
    requires
        forall|i: int| 0 <= i < nodes.len() ==> (#[trigger] nodes[i]).output[0] != name,
    ensures
        value(run(env, nodes), name) == value(env, name),
    decreases nodes.len(),
{
    if nodes.len() > 0 {
        let init = nodes.drop_last();
        assert forall|i: int| 0 <= i < init.len() implies (#[trigger] init[i]).output[0] != name by {
            assert(nodes[i].output[0] != name);
        }
        lemma_run_frame(env, init, name);
        assert(nodes.last() == nodes[nodes.len() - 1]);
    }
}

/// No operator that the emitted nodes apply is called like the pass-through.
pub(crate) proof fn lemma_operators()
    ensures
        "Mul"@ != "Identity"@,
        "Add"@ != "Identity"@,
        "Div"@ != "Identity"@,
        "Sqrt"@ != "Identity"@,
        "MatMul"@ != "Identity"@,
        "Gather"@ != "Identity"@,
        "Sigmoid"@ != "Identity"@,
        "Transpose"@ != "Identity"@,
        "ReduceMean"@ != "Identity"@,
{
    reveal_strlit("Identity");
    reveal_strlit("Mul");
    reveal_strlit("Add");
    reveal_strlit("Div");
    reveal_strlit("Sqrt");
    reveal_strlit("MatMul");
    reveal_strlit("Gather");
    reveal_strlit("Sigmoid");
    reveal_strlit("Transpose");
    reveal_strlit("ReduceMean");
    assert("Identity"@.len() == 8);
    assert("Mul"@.len() == 3);
    assert("Add"@.len() == 3);
    assert("Div"@.len() == 3);
    assert("Sqrt"@.len() == 4);
    assert("MatMul"@.len() == 6);
    assert("Gather"@.len() == 6);
    assert("Sigmoid"@.len() == 7);
    assert("Transpose"@.len() == 9);
    assert("ReduceMean"@.len() == 10);
}

/// The effect of a node with two inputs.
pub(crate) proof fn lemma_step_binary(
    env: Environment,
    op: Seq<char>,
    a: Seq<char>,
    b: Seq<char>,
    y: Seq<char>,
)
    requires
        op != "Identity"@,
    ensures
        step(env, plain_node(op, seq![a, b], seq![y])) == env.insert(
            y,
            binary(op, value(env, a), value(env, b)),
        ),
{
    let n = plain_node(op, seq![a, b], seq![y]);
    assert(n.input.map_values(|name: Seq<char>| value(env, name)) =~= seq![
        value(env, a),
        value(env, b),
    ]);
}

/// The effect of a node with one input.
proof fn lemma_step_unary(env: Environment, op: Seq<char>, a: Seq<char>, y: Seq<char>)
    requires
        op != "Identity"@,
    ensures
        step(env, plain_node(op, seq![a], seq![y])) == env.insert(y, unary(op, value(env, a))),
{
    let n = plain_node(op, seq![a], seq![y]);
    assert(n.input.map_values(|name: Seq<char>| value(env, name)) =~= seq![value(env, a)]);
}

/// The six names that a normalisation uses for itself.
pub open spec fn rmsnorm_scratch(layer: nat) -> Seq<Seq<char>> {
    seq![
        layer_name(layer, "x2"@),
        layer_name(layer, "mean"@),
        layer_name(layer, "mean_eps"@),
        layer_name(layer, "rms"@),
        layer_name(layer, "x_norm"@),
        layer_name(layer, "x_scaled"@),
    ]
}

/// RMSNorm: the nodes of a normalisation leave
/// `x / sqrt(mean(x * x) + eps) * w` under `y`, provided that they do not
/// overwrite `x`, `eps` or `w` before they read it for the last time.
pub proof fn law_rmsnorm(
    env: Environment,
    layer: nat,
    x: Seq<char>,
    w: Seq<char>,
    eps: Seq<char>,
    y: Seq<char>,
)
    requires
        !rmsnorm_scratch(layer).take(2).contains(eps),
        !rmsnorm_scratch(layer).take(4).contains(x),
        !rmsnorm_scratch(layer).take(5).contains(w),
    ensures
        value(run(env, rmsnorm_nodes(layer, x, w, eps, y)), y) == rms_norm_term(
            value(env, x),
            value(env, w),
            value(env, eps),
        ),
{
    lemma_operators();
    let s = rmsnorm_scratch(layer);
    let (x2, mean, mean_eps, rms, x_norm, x_scaled) = (s[0], s[1], s[2], s[3], s[4], s[5]);
    assert(s.take(2)[0] == x2 && s.take(2)[1] == mean);
    assert(s.take(4)[0] == x2 && s.take(4)[1] == mean && s.take(4)[2] == mean_eps && s.take(4)[3]
        == rms);
    assert(s.take(5)[0] == x2 && s.take(5)[1] == mean && s.take(5)[2] == mean_eps && s.take(5)[3]
        == rms && s.take(5)[4] == x_norm);
    let nodes = rmsnorm_nodes(layer, x, w, eps, y);
    lemma_run_steps(env, nodes);
    let e1 = after(env, nodes, 1);
    let e2 = after(env, nodes, 2);
    let e3 = after(env, nodes, 3);
    let e4 = after(env, nodes, 4);
    let e5 = after(env, nodes, 5);
    let e6 = after(env, nodes, 6);
    assert(run(env, nodes) == step(e6, nodes[6]));
    lemma_step_binary(env, "Mul"@, x, x, x2);
    assert(nodes[1].input.map_values(|name: Seq<char>| value(e1, name)) =~= seq![value(e1, x2)]);
    lemma_step_binary(e2, "Add"@, mean, eps, mean_eps);
    lemma_step_unary(e3, "Sqrt"@, mean_eps, rms);
    lemma_step_binary(e4, "Div"@, x, rms, x_norm);
    lemma_step_binary(e5, "Mul"@, x_norm, w, x_scaled);
}

/// SiLU: the nodes leave `x * sigmoid(x)` under `y`, provided that `x` is not
/// the name under which they keep the sigmoid.
pub proof fn law_silu(env: Environment, layer: nat, x: Seq<char>, y: Seq<char>)
    requires
        x != layer_name(layer, "sigmoid"@),
    ensures
        value(run(env, silu_nodes(layer, x, y)), y) == silu_term(value(env, x)),
        y != layer_name(layer, "sigmoid"@) ==> value(
            run(env, silu_nodes(layer, x, y)),
            layer_name(layer, "sigmoid"@),
        ) == unary("Sigmoid"@, value(env, x)),
{
    lemma_operators();
    let sig = layer_name(layer, "sigmoid"@);
    let nodes = silu_nodes(layer, x, y);
    lemma_run_steps(env, nodes);
    let e1 = after(env, nodes, 1);
    assert(run(env, nodes) == step(e1, nodes[1]));
    lemma_step_unary(env, "Sigmoid"@, x, sig);
    lemma_step_binary(e1, "Mul"@, x, sig, y);
}

/// The parts of a block that must not be confused have different names.
pub(crate) proof fn lemma_parts_differ()
    ensures
        "x_norm_out"@ != "q"@,
        "x_norm_out"@ != "k"@,
        "q"@ != "k"@,
        "q"@ != "v"@,
        "k"@ != "v"@,
        "v"@ != "q_rope"@,
        "v"@ != "k_rope"@,
        "x_resid1"@ != "x2"@,
        "x_resid1"@ != "mean"@,
        "x_resid1"@ != "mean_eps"@,
        "x_resid1"@ != "rms"@,
        "x_resid1"@ != "x_norm"@,
        "x_resid1"@ != "x_scaled"@,
        "x_resid1"@ != "post_norm_out"@,
        "x_resid1"@ != "gate"@,
        "x_resid1"@ != "up"@,
        "x_resid1"@ != "sigmoid"@,
        "x_resid1"@ != "gate_silu"@,
        "x_resid1"@ != "gated"@,
        "x_resid1"@ != "mlp_out"@,
        "post_norm_out"@ != "gate"@,
        "gate"@ != "up"@,
        "gate"@ != "sigmoid"@,
        "up"@ != "sigmoid"@,
        "up"@ != "gate_silu"@,
        "x_out"@ != "x2"@,
        "x_out"@ != "mean"@,
        "x_out"@ != "mean_eps"@,
        "x_out"@ != "rms"@,
{
    reveal_strlit("x2");
    reveal_strlit("mean");
    reveal_strlit("mean_eps");
    reveal_strlit("rms");
    reveal_strlit("x_norm");
    reveal_strlit("x_scaled");
    reveal_strlit("sigmoid");
    reveal_strlit("x_norm_out");
    reveal_strlit("q");
    reveal_strlit("k");
    reveal_strlit("v");
    reveal_strlit("q_rope");
    reveal_strlit("k_rope");
    reveal_strlit("x_resid1");
    reveal_strlit("post_norm_out");
    reveal_strlit("gate");
    reveal_strlit("up");
    reveal_strlit("gate_silu");
    reveal_strlit("gated");
    reveal_strlit("mlp_out");
    reveal_strlit("x_out");
    assert("x_norm_out"@.len() != "q"@.len());
    assert("x_norm_out"@.len() != "k"@.len());
    assert("q"@[0] != "k"@[0]);
    assert("q"@[0] != "v"@[0]);
    assert("k"@[0] != "v"@[0]);
    assert("v"@.len() != "q_rope"@.len());
    assert("v"@.len() != "k_rope"@.len());
    assert("x_resid1"@.len() != "x2"@.len());
    assert("x_resid1"@.len() != "mean"@.len());
    assert("x_resid1"@[0] != "mean_eps"@[0]);
    assert("x_resid1"@.len() != "rms"@.len());
    assert("x_resid1"@.len() != "x_norm"@.len());
    assert("x_resid1"@[2] != "x_scaled"@[2]);
    assert("x_resid1"@.len() != "post_norm_out"@.len());
    assert("x_resid1"@.len() != "gate"@.len());
    assert("x_resid1"@.len() != "up"@.len());
    assert("x_resid1"@.len() != "sigmoid"@.len());
    assert("x_resid1"@.len() != "gate_silu"@.len());
    assert("x_resid1"@.len() != "gated"@.len());
    assert("x_resid1"@.len() != "mlp_out"@.len());
    assert("post_norm_out"@.len() != "gate"@.len());
    assert("gate"@.len() != "up"@.len());
    assert("gate"@.len() != "sigmoid"@.len());
    assert("up"@.len() != "sigmoid"@.len());
    assert("up"@.len() != "gate_silu"@.len());
    assert("x_out"@.len() != "x2"@.len());
    assert("x_out"@.len() != "mean"@.len());
    assert("x_out"@.len() != "mean_eps"@.len());
    assert("x_out"@.len() != "rms"@.len());
}

/// Length, first and last character of the name of each part of a block. No
/// two parts agree in all three.
pub(crate) proof fn lemma_part_shapes()
    ensures
        "x2"@.len() == 2 && "x2"@[0] == 'x' && "x2"@[1] == '2',
        "mean"@.len() == 4 && "mean"@[0] == 'm' && "mean"@[3] == 'n',
        "mean_eps"@.len() == 8 && "mean_eps"@[0] == 'm' && "mean_eps"@[7] == 's',
        "rms"@.len() == 3 && "rms"@[0] == 'r' && "rms"@[2] == 's',
        "x_norm"@.len() == 6 && "x_norm"@[0] == 'x' && "x_norm"@[5] == 'm',
        "x_scaled"@.len() == 8 && "x_scaled"@[0] == 'x' && "x_scaled"@[7] == 'd',
        "sigmoid"@.len() == 7 && "sigmoid"@[0] == 's' && "sigmoid"@[6] == 'd',
        "x_norm_out"@.len() == 10 && "x_norm_out"@[0] == 'x' && "x_norm_out"@[9] == 't',
        "q"@.len() == 1 && "q"@[0] == 'q' && "q"@[0] == 'q',
        "k"@.len() == 1 && "k"@[0] == 'k' && "k"@[0] == 'k',
        "v"@.len() == 1 && "v"@[0] == 'v' && "v"@[0] == 'v',
        "q_rope"@.len() == 6 && "q_rope"@[0] == 'q' && "q_rope"@[5] == 'e',
        "k_rope"@.len() == 6 && "k_rope"@[0] == 'k' && "k_rope"@[5] == 'e',
        "attn_ctx"@.len() == 8 && "attn_ctx"@[0] == 'a' && "attn_ctx"@[7] == 'x',
        "attn_out"@.len() == 8 && "attn_out"@[0] == 'a' && "attn_out"@[7] == 't',
        "x_resid1"@.len() == 8 && "x_resid1"@[0] == 'x' && "x_resid1"@[7] == '1',
        "post_norm_out"@.len() == 13 && "post_norm_out"@[0] == 'p' && "post_norm_out"@[12] == 't',
        "gate"@.len() == 4 && "gate"@[0] == 'g' && "gate"@[3] == 'e',
        "up"@.len() == 2 && "up"@[0] == 'u' && "up"@[1] == 'p',
        "gate_silu"@.len() == 9 && "gate_silu"@[0] == 'g' && "gate_silu"@[8] == 'u',
        "gated"@.len() == 5 && "gated"@[0] == 'g' && "gated"@[4] == 'd',
        "mlp_out"@.len() == 7 && "mlp_out"@[0] == 'm' && "mlp_out"@[6] == 't',
        "x_out"@.len() == 5 && "x_out"@[0] == 'x' && "x_out"@[4] == 't',
{
    reveal_strlit("x2");
    reveal_strlit("mean");
    reveal_strlit("mean_eps");
    reveal_strlit("rms");
    reveal_strlit("x_norm");
    reveal_strlit("x_scaled");
    reveal_strlit("sigmoid");
    reveal_strlit("x_norm_out");
    reveal_strlit("q");
    reveal_strlit("k");
    reveal_strlit("v");
    reveal_strlit("q_rope");
    reveal_strlit("k_rope");
    reveal_strlit("attn_ctx");
    reveal_strlit("attn_out");
    reveal_strlit("x_resid1");
    reveal_strlit("post_norm_out");
    reveal_strlit("gate");
    reveal_strlit("up");
    reveal_strlit("gate_silu");
    reveal_strlit("gated");
    reveal_strlit("mlp_out");
    reveal_strlit("x_out");
}

/// Different parts of a layer have different names.
proof fn lemma_layer_names_differ(layer: nat, s: Seq<char>, t: Seq<char>)
    requires
        s != t,
    ensures
        layer_name(layer, s) != layer_name(layer, t),
{
    if layer_name(layer, s) == layer_name(layer, t) {
        lemma_layer_name_injective(layer, s, layer, t);
    }
}

/// The name of a weight is never that of an intermediate tensor.
pub proof fn lemma_weight_is_no_layer_name(a: nat, s: Seq<char>, b: nat, t: Seq<char>)
    ensures
        weight_name(a, s) != layer_name(b, t),
{
    reveal_strlit("model.layers.");
    assert(weight_name(a, s)[0] == 'm');
    assert(layer_name(b, t)[0] == 'l');
}

/// What a block computes from `x`: a normalisation, the value and output
/// projections and a residual sum, then a normalisation, the gated
/// feed-forward network and a residual sum.
pub open spec fn block_term(env: Environment, layer: nat, x: Term, eps: Term) -> Term {
    let weight = |part: Seq<char>| value(env, weight_name(layer, part));
    let normed = rms_norm_term(x, weight("input_layernorm.weight"@), eps);
    let context = binary("MatMul"@, normed, weight("self_attn.v_proj.weight"@));
    let resid = binary(
        "Add"@,
        x,
        binary("MatMul"@, context, weight("self_attn.o_proj.weight"@)),
    );
    let post = rms_norm_term(resid, weight("post_attention_layernorm.weight"@), eps);
    let gate = binary("MatMul"@, post, weight("mlp.gate_proj.weight"@));
    let up = binary("MatMul"@, post, weight("mlp.up_proj.weight"@));
    let gated = binary("Mul"@, silu_term(gate), up);
    binary("Add"@, resid, binary("MatMul"@, gated, weight("mlp.down_proj.weight"@)))
}

/// RMSNorm, step by step: where the names that it reads and the name of its
/// result are none of its scratch names, each scratch name holds its part of
/// the formula afterwards.
#[verifier::rlimit(30)]
pub proof fn law_rmsnorm_steps(
    env: Environment,
    layer: nat,
    x: Seq<char>,
    w: Seq<char>,
    eps: Seq<char>,
    y: Seq<char>,
)
    requires
        !rmsnorm_scratch(layer).contains(x),
        !rmsnorm_scratch(layer).contains(w),
        !rmsnorm_scratch(layer).contains(eps),
        !rmsnorm_scratch(layer).contains(y),
    ensures
        ({
            let out = run(env, rmsnorm_nodes(layer, x, w, eps, y));
            let square = binary("Mul"@, value(env, x), value(env, x));
            let shifted = binary("Add"@, mean_term(square), value(env, eps));
            let normed = binary("Div"@, value(env, x), unary("Sqrt"@, shifted));
            &&& value(out, layer_name(layer, "x2"@)) == square
            &&& value(out, layer_name(layer, "mean"@)) == mean_term(square)
            &&& value(out, layer_name(layer, "mean_eps"@)) == shifted
            &&& value(out, layer_name(layer, "rms"@)) == unary("Sqrt"@, shifted)
            &&& value(out, layer_name(layer, "x_norm"@)) == normed
            &&& value(out, layer_name(layer, "x_scaled"@)) == binary("Mul"@, normed, value(env, w))
            &&& value(out, y) == binary("Mul"@, normed, value(env, w))
        }),
{
    lemma_operators();
    lemma_part_shapes();
    let s = rmsnorm_scratch(layer);
    let (x2, mean, mean_eps, rms, x_norm, x_scaled) = (s[0], s[1], s[2], s[3], s[4], s[5]);
    assert forall|p: Seq<char>, t: Seq<char>|
        #![trigger layer_name(layer, p), layer_name(layer, t)]
        layer_name(layer, p) == layer_name(layer, t) implies p == t by {
        lemma_layer_name_injective(layer, p, layer, t);
    }
    let nodes = rmsnorm_nodes(layer, x, w, eps, y);
    lemma_run_steps(env, nodes);
    let e1 = after(env, nodes, 1);
    let e2 = after(env, nodes, 2);
    let e3 = after(env, nodes, 3);
    let e4 = after(env, nodes, 4);
    let e5 = after(env, nodes, 5);
    let e6 = after(env, nodes, 6);
    assert(run(env, nodes) == step(e6, nodes[6]));
    lemma_step_binary(env, "Mul"@, x, x, x2);
    assert(nodes[1].input.map_values(|name: Seq<char>| value(e1, name)) =~= seq![value(e1, x2)]);
    lemma_step_binary(e2, "Add"@, mean, eps, mean_eps);
    lemma_step_unary(e3, "Sqrt"@, mean_eps, rms);
    lemma_step_binary(e4, "Div"@, x, rms, x_norm);
    lemma_step_binary(e5, "Mul"@, x_norm, w, x_scaled);
}

/// The names that a block writes before its first residual sum.
pub open spec fn attention_scratch(layer: nat) -> Seq<Seq<char>> {
    rmsnorm_scratch(layer) + seq![
        layer_name(layer, "x_norm_out"@),
        layer_name(layer, "q"@),
        layer_name(layer, "k"@),
        layer_name(layer, "v"@),
        layer_name(layer, "q_rope"@),
        layer_name(layer, "k_rope"@),
        layer_name(layer, "attn_ctx"@),
        layer_name(layer, "attn_out"@),
    ]
}

/// Members of a concatenation.
proof fn lemma_scratch_members(layer: nat, name: Seq<char>)
    requires
        !attention_scratch(layer).contains(name),
    ensures
        forall|i: int| 0 <= i < 6 ==> #[trigger] rmsnorm_scratch(layer)[i] != name,
        name != layer_name(layer, "x_norm_out"@),
        name != layer_name(layer, "q"@),
        name != layer_name(layer, "k"@),
        name != layer_name(layer, "v"@),
        name != layer_name(layer, "q_rope"@),
        name != layer_name(layer, "k_rope"@),
        name != layer_name(layer, "attn_ctx"@),
        name != layer_name(layer, "attn_out"@),
{
    let all = attention_scratch(layer);
    assert forall|i: int| 0 <= i < 6 implies #[trigger] rmsnorm_scratch(layer)[i] != name by {
        assert(all[i] == rmsnorm_scratch(layer)[i]);
    }
    assert(all[6] == layer_name(layer, "x_norm_out"@));
    assert(all[7] == layer_name(layer, "q"@));
    assert(all[8] == layer_name(layer, "k"@));
    assert(all[9] == layer_name(layer, "v"@));
    assert(all[10] == layer_name(layer, "q_rope"@));
    assert(all[11] == layer_name(layer, "k_rope"@));
    assert(all[12] == layer_name(layer, "attn_ctx"@));
    assert(all[13] == layer_name(layer, "attn_out"@));
}

/// A normalisation changes nothing but its scratch names and its result.
proof fn lemma_rmsnorm_frame(
    env: Environment,
    layer: nat,
    x: Seq<char>,
    w: Seq<char>,
    eps: Seq<char>,
    y: Seq<char>,
    name: Seq<char>,
)
    requires
        forall|i: int| 0 <= i < 6 ==> #[trigger] rmsnorm_scratch(layer)[i] != name,
        name != y,
    ensures
        value(run(env, rmsnorm_nodes(layer, x, w, eps, y)), name) == value(env, name),
{
    let nodes = rmsnorm_nodes(layer, x, w, eps, y);
    assert forall|i: int| 0 <= i < nodes.len() implies (#[trigger] nodes[i]).output[0] != name by {
        if i < 6 {
            assert(nodes[i].output[0] == rmsnorm_scratch(layer)[i]);
        }
    }
    lemma_run_frame(env, nodes, name);
}

/// The nodes between the normalisations leave the first residual sum.
#[verifier::rlimit(30)]
proof fn lemma_attention(env: Environment, layer: nat, x: Seq<char>)
    requires
        !attention_scratch(layer).contains(x),
    ensures
        value(run(env, attention_nodes(layer, x)), layer_name(layer, "x_resid1"@)) == binary(
            "Add"@,
            value(env, x),
            binary(
                "MatMul"@,
                binary(
                    "MatMul"@,
                    value(env, layer_name(layer, "x_norm_out"@)),
                    value(env, weight_name(layer, "self_attn.v_proj.weight"@)),
                ),
                value(env, weight_name(layer, "self_attn.o_proj.weight"@)),
            ),
        ),
        ({
            let out = run(env, attention_nodes(layer, x));
            let normed = value(env, layer_name(layer, "x_norm_out"@));
            let query = binary(
                "MatMul"@,
                normed,
                value(env, weight_name(layer, "self_attn.q_proj.weight"@)),
            );
            let key = binary(
                "MatMul"@,
                normed,
                value(env, weight_name(layer, "self_attn.k_proj.weight"@)),
            );
            let val = binary(
                "MatMul"@,
                normed,
                value(env, weight_name(layer, "self_attn.v_proj.weight"@)),
            );
            &&& value(out, layer_name(layer, "x_norm_out"@)) == normed
            &&& value(out, layer_name(layer, "q"@)) == query
            &&& value(out, layer_name(layer, "k"@)) == key
            &&& value(out, layer_name(layer, "v"@)) == val
            &&& value(out, layer_name(layer, "q_rope"@)) == query
            &&& value(out, layer_name(layer, "k_rope"@)) == key
            &&& value(out, layer_name(layer, "attn_ctx"@)) == val
            &&& value(out, layer_name(layer, "attn_out"@)) == binary(
                "MatMul"@,
                val,
                value(env, weight_name(layer, "self_attn.o_proj.weight"@)),
            )
        }),
{
    lemma_operators();
    lemma_parts_differ();
    lemma_part_shapes();
    assert forall|p: Seq<char>, t: Seq<char>|
        #![trigger layer_name(layer, p), layer_name(layer, t)]
        layer_name(layer, p) == layer_name(layer, t) implies p == t by {
        lemma_layer_name_injective(layer, p, layer, t);
    }
    lemma_scratch_members(layer, x);
    let x_norm = layer_name(layer, "x_norm_out"@);
    let q = layer_name(layer, "q"@);
    let k = layer_name(layer, "k"@);
    let v = layer_name(layer, "v"@);
    let q_rope = layer_name(layer, "q_rope"@);
    let k_rope = layer_name(layer, "k_rope"@);
    let attn_ctx = layer_name(layer, "attn_ctx"@);
    let attn_out = layer_name(layer, "attn_out"@);
    let wq = weight_name(layer, "self_attn.q_proj.weight"@);
    let wk = weight_name(layer, "self_attn.k_proj.weight"@);
    let wv = weight_name(layer, "self_attn.v_proj.weight"@);
    let wo = weight_name(layer, "self_attn.o_proj.weight"@);
    lemma_layer_names_differ(layer, "x_norm_out"@, "q"@);
    lemma_layer_names_differ(layer, "x_norm_out"@, "k"@);
    lemma_layer_names_differ(layer, "v"@, "q_rope"@);
    lemma_layer_names_differ(layer, "v"@, "k_rope"@);
    assert forall|p: Seq<char>, t: Seq<char>|
        #![trigger weight_name(layer, p), layer_name(layer, t)]
        weight_name(layer, p) != layer_name(layer, t) by {
        lemma_weight_is_no_layer_name(layer, p, layer, t);
    }
    let nodes = attention_nodes(layer, x);
    lemma_run_steps(env, nodes);
    let e1 = after(env, nodes, 1);
    let e2 = after(env, nodes, 2);
    let e3 = after(env, nodes, 3);
    let e4 = after(env, nodes, 4);
    let e5 = after(env, nodes, 5);
    let e6 = after(env, nodes, 6);
    let e7 = after(env, nodes, 7);
    assert(run(env, nodes) == step(e7, nodes[7]));
    lemma_step_binary(env, "MatMul"@, x_norm, wq, q);
    lemma_step_binary(e1, "MatMul"@, x_norm, wk, k);
    lemma_step_binary(e2, "MatMul"@, x_norm, wv, v);
    assert(value(e3, v) == binary("MatMul"@, value(env, x_norm), value(env, wv)));
    assert(e4 == e3.insert(q_rope, value(e3, q)));
    assert(e5 == e4.insert(k_rope, value(e4, k)));
    assert(e6 == e5.insert(attn_ctx, value(e3, v)));
    lemma_step_binary(e6, "MatMul"@, attn_ctx, wo, attn_out);
    lemma_step_binary(e7, "Add"@, x, attn_out, layer_name(layer, "x_resid1"@));
}

/// The nodes between the normalisations change nothing but their own names.
proof fn lemma_attention_frame(env: Environment, layer: nat, x: Seq<char>, name: Seq<char>)
    requires
        !attention_scratch(layer).contains(name),
        name != layer_name(layer, "x_resid1"@),
    ensures
        value(run(env, attention_nodes(layer, x)), name) == value(env, name),
{
    lemma_scratch_members(layer, name);
    lemma_run_frame(env, attention_nodes(layer, x), name);
}

/// A weight is none of the names that a block writes.
proof fn lemma_weight_not_written(layer: nat, part: Seq<char>)
    ensures
        !attention_scratch(layer).contains(weight_name(layer, part)),
        forall|i: int|
            0 <= i < 6 ==> #[trigger] rmsnorm_scratch(layer)[i] != weight_name(layer, part),
        forall|t: Seq<char>| #[trigger] layer_name(layer, t) != weight_name(layer, part),
{
    assert forall|t: Seq<char>| #[trigger] layer_name(layer, t) != weight_name(layer, part) by {
        lemma_weight_is_no_layer_name(layer, part, layer, t);
    }
}

/// The two projections that open the feed-forward network.
proof fn lemma_gate_up(env: Environment, layer: nat)
    ensures
        ({
            let post = value(env, layer_name(layer, "post_norm_out"@));
            let out = run(env, gate_up_nodes(layer));
            &&& value(out, layer_name(layer, "gate"@)) == binary(
                "MatMul"@,
                post,
                value(env, weight_name(layer, "mlp.gate_proj.weight"@)),
            )
            &&& value(out, layer_name(layer, "up"@)) == binary(
                "MatMul"@,
                post,
                value(env, weight_name(layer, "mlp.up_proj.weight"@)),
            )
        }),
{
    lemma_operators();
    lemma_parts_differ();
    let post = layer_name(layer, "post_norm_out"@);
    let gate = layer_name(layer, "gate"@);
    let up = layer_name(layer, "up"@);
    let wg = weight_name(layer, "mlp.gate_proj.weight"@);
    let wu = weight_name(layer, "mlp.up_proj.weight"@);
    lemma_layer_names_differ(layer, "post_norm_out"@, "gate"@);
    lemma_layer_names_differ(layer, "gate"@, "up"@);
    lemma_weight_is_no_layer_name(layer, "mlp.up_proj.weight"@, layer, "gate"@);
    let nodes = gate_up_nodes(layer);
    lemma_run_steps(env, nodes);
    let e1 = after(env, nodes, 1);
    assert(run(env, nodes) == step(e1, nodes[1]));
    lemma_step_binary(env, "MatMul"@, post, wg, gate);
    lemma_step_binary(e1, "MatMul"@, post, wu, up);
}

/// The last three nodes.
proof fn lemma_down(env: Environment, layer: nat)
    ensures
        value(run(env, down_nodes(layer)), layer_out(layer)) == binary(
            "Add"@,
            value(env, layer_name(layer, "x_resid1"@)),
            binary(
                "MatMul"@,
                binary(
                    "Mul"@,
                    value(env, layer_name(layer, "gate_silu"@)),
                    value(env, layer_name(layer, "up"@)),
                ),
                value(env, weight_name(layer, "mlp.down_proj.weight"@)),
            ),
        ),
{
    lemma_operators();
    lemma_parts_differ();
    let gate_silu = layer_name(layer, "gate_silu"@);
    let up = layer_name(layer, "up"@);
    let gated = layer_name(layer, "gated"@);
    let mlp_out = layer_name(layer, "mlp_out"@);
    let resid = layer_name(layer, "x_resid1"@);
    let wd = weight_name(layer, "mlp.down_proj.weight"@);
    lemma_layer_names_differ(layer, "x_resid1"@, "gated"@);
    lemma_layer_names_differ(layer, "x_resid1"@, "mlp_out"@);
    lemma_weight_is_no_layer_name(layer, "mlp.down_proj.weight"@, layer, "gated"@);
    let nodes = down_nodes(layer);
    lemma_run_steps(env, nodes);
    let e1 = after(env, nodes, 1);
    let e2 = after(env, nodes, 2);
    assert(run(env, nodes) == step(e2, nodes[2]));
    lemma_step_binary(env, "Mul"@, gate_silu, up, gated);
    lemma_step_binary(e1, "MatMul"@, gated, wd, mlp_out);
    lemma_step_binary(e2, "Add"@, resid, mlp_out, layer_out(layer));
}

/// The first half of a block, up to the first residual sum.
#[verifier::rlimit(30)]
proof fn lemma_first_half(env: Environment, layer: nat, x: Seq<char>, eps: Seq<char>)
    requires
        !attention_scratch(layer).contains(x),
        !attention_scratch(layer).contains(eps),
    ensures
        ({
            let norm = rmsnorm_nodes(
                layer,
                x,
                weight_name(layer, "input_layernorm.weight"@),
                eps,
                layer_name(layer, "x_norm_out"@),
            );
            let out = run(run(env, norm), attention_nodes(layer, x));
            &&& value(out, layer_name(layer, "x_resid1"@)) == binary(
                "Add"@,
                value(env, x),
                binary(
                    "MatMul"@,
                    binary(
                        "MatMul"@,
                        rms_norm_term(
                            value(env, x),
                            value(env, weight_name(layer, "input_layernorm.weight"@)),
                            value(env, eps),
                        ),
                        value(env, weight_name(layer, "self_attn.v_proj.weight"@)),
                    ),
                    value(env, weight_name(layer, "self_attn.o_proj.weight"@)),
                ),
            )
            &&& eps != layer_name(layer, "x_resid1"@) ==> value(out, eps) == value(env, eps)
            &&& forall|part: Seq<char>|
                value(out, #[trigger] weight_name(layer, part)) == value(
                    env,
                    weight_name(layer, part),
                )
        }),
{
    let w = weight_name(layer, "input_layernorm.weight"@);
    let y = layer_name(layer, "x_norm_out"@);
    let norm = rmsnorm_nodes(layer, x, w, eps, y);
    let e1 = run(env, norm);
    let out = run(e1, attention_nodes(layer, x));
    lemma_scratch_members(layer, x);
    lemma_scratch_members(layer, eps);
    lemma_weight_not_written(layer, "input_layernorm.weight"@);
    law_rmsnorm(env, layer, x, w, eps, y);
    lemma_rmsnorm_frame(env, layer, x, w, eps, y, x);
    lemma_rmsnorm_frame(env, layer, x, w, eps, y, eps);
    lemma_attention(e1, layer, x);
    if eps != layer_name(layer, "x_resid1"@) {
        lemma_attention_frame(e1, layer, x, eps);
    }
    assert forall|part: Seq<char>|
        value(e1, #[trigger] weight_name(layer, part)) == value(env, weight_name(layer, part)) by {
        lemma_weight_not_written(layer, part);
        lemma_rmsnorm_frame(env, layer, x, w, eps, y, weight_name(layer, part));
    }
    assert forall|part: Seq<char>|
        value(out, #[trigger] weight_name(layer, part)) == value(env, weight_name(layer, part)) by {
        lemma_weight_not_written(layer, part);
        lemma_attention_frame(e1, layer, x, weight_name(layer, part));
    }
}

/// The second half of a block, from the first residual sum on.
#[verifier::rlimit(30)]
proof fn lemma_second_half(env: Environment, layer: nat, eps: Seq<char>)
    requires
        forall|i: int| 0 <= i < 6 ==> #[trigger] rmsnorm_scratch(layer)[i] != eps,
    ensures
        ({
            let norm = rmsnorm_nodes(
                layer,
                layer_name(layer, "x_resid1"@),
                weight_name(layer, "post_attention_layernorm.weight"@),
                eps,
                layer_name(layer, "post_norm_out"@),
            );
            let silu = silu_nodes(
                layer,
                layer_name(layer, "gate"@),
                layer_name(layer, "gate_silu"@),
            );
            let e3 = run(run(run(env, norm), gate_up_nodes(layer)), silu);
            let resid = value(env, layer_name(layer, "x_resid1"@));
            let post = rms_norm_term(
                resid,
                value(env, weight_name(layer, "post_attention_layernorm.weight"@)),
                value(env, eps),
            );
            let gate = binary(
                "MatMul"@,
                post,
                value(env, weight_name(layer, "mlp.gate_proj.weight"@)),
            );
            let up = binary(
                "MatMul"@,
                post,
                value(env, weight_name(layer, "mlp.up_proj.weight"@)),
            );
            value(run(e3, down_nodes(layer)), layer_out(layer)) == binary(
                "Add"@,
                resid,
                binary(
                    "MatMul"@,
                    binary("Mul"@, silu_term(gate), up),
                    value(env, weight_name(layer, "mlp.down_proj.weight"@)),
                ),
            )
        }),
{
    let resid = layer_name(layer, "x_resid1"@);
    let w = weight_name(layer, "post_attention_layernorm.weight"@);
    let y = layer_name(layer, "post_norm_out"@);
    let gate = layer_name(layer, "gate"@);
    let up = layer_name(layer, "up"@);
    let gate_silu = layer_name(layer, "gate_silu"@);
    let norm = rmsnorm_nodes(layer, resid, w, eps, y);
    let gate_up = gate_up_nodes(layer);
    let silu = silu_nodes(layer, gate, gate_silu);
    let e1 = run(env, norm);
    let e2 = run(e1, gate_up);
    let e3 = run(e2, silu);
    lemma_parts_differ();
    let scratch_parts = seq!["x2"@, "mean"@, "mean_eps"@, "rms"@, "x_norm"@, "x_scaled"@];
    assert forall|i: int| 0 <= i < 6 implies #[trigger] rmsnorm_scratch(layer)[i] != resid by {
        assert(rmsnorm_scratch(layer)[i] == layer_name(layer, scratch_parts[i]));
        lemma_layer_names_differ(layer, "x_resid1"@, scratch_parts[i]);
    }
    lemma_weight_not_written(layer, "post_attention_layernorm.weight"@);
    law_rmsnorm(env, layer, resid, w, eps, y);
    lemma_layer_names_differ(layer, "x_resid1"@, "post_norm_out"@);
    lemma_layer_names_differ(layer, "x_resid1"@, "gate"@);
    lemma_layer_names_differ(layer, "x_resid1"@, "up"@);
    lemma_layer_names_differ(layer, "x_resid1"@, "sigmoid"@);
    lemma_layer_names_differ(layer, "x_resid1"@, "gate_silu"@);
    lemma_layer_names_differ(layer, "up"@, "sigmoid"@);
    lemma_layer_names_differ(layer, "up"@, "gate_silu"@);
    lemma_layer_names_differ(layer, "gate"@, "sigmoid"@);
    lemma_rmsnorm_frame(env, layer, resid, w, eps, y, resid);
    lemma_gate_up(e1, layer);
    lemma_run_frame(e1, gate_up, resid);
    law_silu(e2, layer, gate, gate_silu);
    lemma_run_frame(e2, silu, resid);
    lemma_run_frame(e2, silu, up);
    lemma_down(e3, layer);
    assert forall|part: Seq<char>|
        value(e1, #[trigger] weight_name(layer, part)) == value(env, weight_name(layer, part))
            && value(e3, weight_name(layer, part)) == value(env, weight_name(layer, part)) by {
        let name = weight_name(layer, part);
        lemma_weight_not_written(layer, part);
        lemma_rmsnorm_frame(env, layer, resid, w, eps, y, name);
        lemma_run_frame(e1, gate_up, name);
        lemma_run_frame(e2, silu, name);
    }
}

/// A transformer block: its nodes leave `block_term` of its input under the
/// name that the block returns, provided that they do not overwrite the input
/// or the epsilon before they read it for the last time.
#[verifier::rlimit(30)]
pub proof fn law_layer(env: Environment, layer: nat, x: Seq<char>, eps: Seq<char>)
    requires
        !attention_scratch(layer).contains(x),
        !attention_scratch(layer).contains(eps),
        eps != layer_name(layer, "x_resid1"@),
    ensures
        value(run(env, layer_nodes(layer, x, eps)), layer_out(layer)) == block_term(
            env,
            layer,
            value(env, x),
            value(env, eps),
        ),
{
    let n1 = rmsnorm_nodes(
        layer,
        x,
        weight_name(layer, "input_layernorm.weight"@),
        eps,
        layer_name(layer, "x_norm_out"@),
    );
    let n2 = attention_nodes(layer, x);
    let n3 = rmsnorm_nodes(
        layer,
        layer_name(layer, "x_resid1"@),
        weight_name(layer, "post_attention_layernorm.weight"@),
        eps,
        layer_name(layer, "post_norm_out"@),
    );
    let n4 = gate_up_nodes(layer);
    let n5 = silu_nodes(layer, layer_name(layer, "gate"@), layer_name(layer, "gate_silu"@));
    let n6 = down_nodes(layer);
    lemma_run_concat(env, n1, n2);
    lemma_run_concat(env, n1 + n2, n3);
    lemma_run_concat(env, n1 + n2 + n3, n4);
    lemma_run_concat(env, n1 + n2 + n3 + n4, n5);
    lemma_run_concat(env, n1 + n2 + n3 + n4 + n5, n6);
    lemma_first_half(env, layer, x, eps);
    lemma_scratch_members(layer, eps);
    lemma_second_half(run(run(env, n1), n2), layer, eps);
}

/// What a block leaves under the names of its attention part. Query and key
/// are the projections of the normalised input by the query and key weights of
/// the layer, and pass unchanged where a rotary embedding would stand; the
/// value projection passes unchanged where attention would stand.
#[verifier::rlimit(30)]
pub proof fn law_layer_attention(env: Environment, layer: nat, x: Seq<char>, eps: Seq<char>)
    requires
        !attention_scratch(layer).contains(x),
        !attention_scratch(layer).contains(eps),
    ensures
        ({
            let out = run(env, layer_nodes(layer, x, eps));
            let weight = |part: Seq<char>| value(env, weight_name(layer, part));
            let normed = rms_norm_term(
                value(env, x),
                weight("input_layernorm.weight"@),
                value(env, eps),
            );
            let query = binary("MatMul"@, normed, weight("self_attn.q_proj.weight"@));
            let key = binary("MatMul"@, normed, weight("self_attn.k_proj.weight"@));
            let val = binary("MatMul"@, normed, weight("self_attn.v_proj.weight"@));
            let mixed = binary("MatMul"@, val, weight("self_attn.o_proj.weight"@));
            &&& value(out, layer_name(layer, "x_norm_out"@)) == normed
            &&& value(out, layer_name(layer, "q"@)) == query
            &&& value(out, layer_name(layer, "k"@)) == key
            &&& value(out, layer_name(layer, "v"@)) == val
            &&& value(out, layer_name(layer, "q_rope"@)) == query
            &&& value(out, layer_name(layer, "k_rope"@)) == key
            &&& value(out, layer_name(layer, "attn_ctx"@)) == val
            &&& value(out, layer_name(layer, "attn_out"@)) == mixed
            &&& value(out, layer_name(layer, "x_resid1"@)) == binary("Add"@, value(env, x), mixed)
        }),
{
    let w1 = weight_name(layer, "input_layernorm.weight"@);
    let y = layer_name(layer, "x_norm_out"@);
    let n1 = rmsnorm_nodes(layer, x, w1, eps, y);
    let n2 = attention_nodes(layer, x);
    let n3 = rmsnorm_nodes(
        layer,
        layer_name(layer, "x_resid1"@),
        weight_name(layer, "post_attention_layernorm.weight"@),
        eps,
        layer_name(layer, "post_norm_out"@),
    );
    let n4 = gate_up_nodes(layer);
    let n5 = silu_nodes(layer, layer_name(layer, "gate"@), layer_name(layer, "gate_silu"@));
    let n6 = down_nodes(layer);
    let e1 = run(env, n1);
    let e2 = run(e1, n2);
    let rest = n3 + n4 + n5 + n6;
    assert(layer_nodes(layer, x, eps) =~= n1 + n2 + rest);
    lemma_run_concat(env, n1, n2);
    lemma_run_concat(env, n1 + n2, rest);
    lemma_scratch_members(layer, x);
    lemma_scratch_members(layer, eps);
    lemma_weight_not_written(layer, "input_layernorm.weight"@);
    law_rmsnorm(env, layer, x, w1, eps, y);
    lemma_rmsnorm_frame(env, layer, x, w1, eps, y, x);
    lemma_attention(e1, layer, x);
    assert forall|part: Seq<char>|
        value(e1, #[trigger] weight_name(layer, part)) == value(env, weight_name(layer, part)) by {
        lemma_weight_not_written(layer, part);
        lemma_rmsnorm_frame(env, layer, x, w1, eps, y, weight_name(layer, part));
    }
    let later = seq![
        "x2"@,
        "mean"@,
        "mean_eps"@,
        "rms"@,
        "x_norm"@,
        "x_scaled"@,
        "post_norm_out"@,
        "gate"@,
        "up"@,
        "sigmoid"@,
        "gate_silu"@,
        "gated"@,
        "mlp_out"@,
        "x_out"@,
    ];
    assert forall|i: int| 0 <= i < rest.len() implies (#[trigger] rest[i]).output[0] == layer_name(
        layer,
        later[i],
    ) by {
        if i < 7 {
            assert(rest[i] == n3[i]);
        } else if i < 9 {
            assert(rest[i] == n4[i - 7]);
        } else if i < 11 {
            assert(rest[i] == n5[i - 9]);
        } else {
            assert(rest[i] == n6[i - 11]);
        }
    }
    let kept = seq![
        "x_norm_out"@,
        "q"@,
        "k"@,
        "v"@,
        "q_rope"@,
        "k_rope"@,
        "attn_ctx"@,
        "attn_out"@,
        "x_resid1"@,
    ];
    lemma_part_shapes();
    assert forall|k: int| 0 <= k < kept.len() implies value(
        run(e2, rest),
        #[trigger] layer_name(layer, kept[k]),
    ) == value(e2, layer_name(layer, kept[k])) by {
        assert forall|i: int| 0 <= i < rest.len() implies (#[trigger] rest[i]).output[0]
            != layer_name(layer, kept[k]) by {
            assert(later[i] != kept[k]);
            lemma_layer_names_differ(layer, later[i], kept[k]);
        }
        lemma_run_frame(e2, rest, layer_name(layer, kept[k]));
    }
    assert(kept[0] == "x_norm_out"@ && kept[1] == "q"@ && kept[2] == "k"@ && kept[3] == "v"@);
    assert(kept[4] == "q_rope"@ && kept[5] == "k_rope"@ && kept[6] == "attn_ctx"@);
    assert(kept[7] == "attn_out"@ && kept[8] == "x_resid1"@);
}

/// What a block leaves as its result: the residual sum of the attention part
/// is normalised, goes through the two opening projections of the layer, is
/// activated and multiplied, goes through the closing projection, and is added
/// to the residual sum that it started from.
#[verifier::rlimit(30)]
pub proof fn law_layer_feed_forward(env: Environment, layer: nat, x: Seq<char>, eps: Seq<char>)
    requires
        !attention_scratch(layer).contains(x),
        !attention_scratch(layer).contains(eps),
        eps != layer_name(layer, "x_resid1"@),
    ensures
        ({
            let out = run(env, layer_nodes(layer, x, eps));
            let weight = |part: Seq<char>| value(env, weight_name(layer, part));
            let resid = value(out, layer_name(layer, "x_resid1"@));
            let post = rms_norm_term(
                resid,
                weight("post_attention_layernorm.weight"@),
                value(env, eps),
            );
            let gate = binary("MatMul"@, post, weight("mlp.gate_proj.weight"@));
            let up = binary("MatMul"@, post, weight("mlp.up_proj.weight"@));
            let act = binary("Mul"@, gate, unary("Sigmoid"@, gate));
            let down = binary(
                "MatMul"@,
                binary("Mul"@, act, up),
                weight("mlp.down_proj.weight"@),
            );
            value(out, layer_name(layer, "x_out"@)) == binary("Add"@, resid, down)
        }),
{
    law_layer(env, layer, x, eps);
    law_layer_attention(env, layer, x, eps);
}

} // verus!

//! The names under which the nodes of a graph read and write tensors.

use vstd::prelude::*;
use vstd::string::StringExecFns;

use crate::decimal::append_decimal;
use crate::decimal::{decimal, is_digit, is_numeral_of, law_numeral};

verus! {

/// The name of an intermediate tensor `part` of layer `layer`: `l{layer}_{part}`.
pub open spec fn layer_name(layer: nat, part: Seq<char>) -> Seq<char> {
    seq!['l'] + decimal(layer) + seq!['_'] + part
}

/// The name of a weight of layer `layer`: `model.layers.{layer}.{part}`.
pub open spec fn weight_name(layer: nat, part: Seq<char>) -> Seq<char> {
    "model.layers."@ + decimal(layer) + seq!['.'] + part
}

/// Whether `name` is `prefix`, then the numeral of `number`, then `separator`,
/// then `part`.
pub open spec fn spelled(
    name: Seq<char>,
    prefix: Seq<char>,
    number: nat,
    separator: char,
    part: Seq<char>,
) -> bool {
    exists|digits: Seq<char>| #[trigger]
        is_numeral_of(digits, number) && name == prefix + digits + seq![separator] + part
}

/// A name that is spelled with a number and a part can be read in one way
/// only: both come back from it.
pub proof fn lemma_spelled_injective(
    name: Seq<char>,
    prefix: Seq<char>,
    separator: char,
    a: nat,
    s: Seq<char>,
    b: nat,
    t: Seq<char>,
)
    requires
        !is_digit(separator),
        spelled(name, prefix, a, separator, s),
        spelled(name, prefix, b, separator, t),
    ensures
        a == b,
        s == t,
{
    let da = choose|d: Seq<char>| #[trigger]
        is_numeral_of(d, a) && name == prefix + d + seq![separator] + s;
    let db = choose|d: Seq<char>| #[trigger]
        is_numeral_of(d, b) && name == prefix + d + seq![separator] + t;
    let p: int = prefix.len() as int;
    let m: int = da.len() as int;
    let n: int = db.len() as int;
    assert(name[p + m] == separator);
    assert(name[p + n] == separator);
    if m < n {
        assert('0' as int <= db[m] as int <= '9' as int);
        assert(name[p + m] == db[m]);
    }
    if n < m {
        assert('0' as int <= da[n] as int <= '9' as int);
        assert(name[p + n] == da[n]);
    }
    assert(name.subrange(p, p + m) =~= da);
    assert(name.subrange(p, p + n) =~= db);
    assert(name.subrange(p + m + 1, name.len() as int) =~= s);
    assert(name.subrange(p + n + 1, name.len() as int) =~= t);
}

/// The name of an intermediate tensor is `l`, the numeral of the layer, `_`
/// and the part.
pub proof fn law_layer_name_spelled(layer: nat, part: Seq<char>)
    ensures
        spelled(layer_name(layer, part), "l"@, layer, '_', part),
{
    law_numeral(layer);
    reveal_strlit("l");
    assert(layer_name(layer, part) =~= "l"@ + decimal(layer) + seq!['_'] + part);
}

/// The name of a weight is `model.layers.`, the numeral of the layer, `.` and
/// the part.
pub proof fn law_weight_name_spelled(layer: nat, part: Seq<char>)
    ensures
        spelled(weight_name(layer, part), "model.layers."@, layer, '.', part),
{
    law_numeral(layer);
    assert(weight_name(layer, part) =~= "model.layers."@ + decimal(layer) + seq!['.'] + part);
}

/// Two intermediate tensors share a name only if they are the same part of the
/// same layer.
pub proof fn lemma_layer_name_injective(a: nat, s: Seq<char>, b: nat, t: Seq<char>)
    requires
        layer_name(a, s) == layer_name(b, t),
    ensures
        a == b,
        s == t,
{
    law_layer_name_spelled(a, s);
    law_layer_name_spelled(b, t);
    lemma_spelled_injective(layer_name(a, s), "l"@, '_', a, s, b, t);
}

/// Two weights share a name only if they are the same part of the same layer.
pub proof fn law_weight_name_injective(a: nat, s: Seq<char>, b: nat, t: Seq<char>)
    requires
        weight_name(a, s) == weight_name(b, t),
    ensures
        a == b,
        s == t,
{
    law_weight_name_spelled(a, s);
    law_weight_name_spelled(b, t);
    lemma_spelled_injective(weight_name(a, s), "model.layers."@, '.', a, s, b, t);
}

/// Builds `l{layer}_{part}`.
pub fn layer_tensor(layer: usize, part: &str) -> (name: String)
    ensures
        name@ == layer_name(layer as nat, part@),
        spelled(name@, "l"@, layer as nat, '_', part@),
{
    let mut name = "l".to_owned();
    append_decimal(&mut name, layer as u64);
    name.append("_");
    name.append(part);
    proof {
        reveal_strlit("l");
        reveal_strlit("_");
        assert(name@ =~= layer_name(layer as nat, part@));
        law_layer_name_spelled(layer as nat, part@);
    }
    name
}

/// Builds `model.layers.{layer}.{part}`.
pub fn layer_weight(layer: usize, part: &str) -> (name: String)
    ensures
        name@ == weight_name(layer as nat, part@),
        spelled(name@, "model.layers."@, layer as nat, '.', part@),
{
    let mut name = "model.layers.".to_owned();
    append_decimal(&mut name, layer as u64);
    name.append(".");
    name.append(part);
    proof {
        reveal_strlit(".");
        assert(name@ =~= weight_name(layer as nat, part@));
        law_weight_name_spelled(layer as nat, part@);
    }
    name
}

} // verus!

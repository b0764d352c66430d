//! Constructors of the messages that a converted model is made of.

use vstd::prelude::*;

use crate::onnx::{
    AttributeProto, Dimension, DimensionValue, NodeProto, StringStringEntryProto, TensorProto,
    TensorShapeProto, TensorTypeProto, TypeProto, TypeValue, ValueInfoProto, ATTRIBUTE_TYPE_INT,
    ATTRIBUTE_TYPE_INTS, DATA_TYPE_FLOAT,
};
use crate::onnx::{axes_of, elem_type_of, same_text, same_texts};
use crate::onnx::{
    SpecAttribute, SpecDimension, SpecDimensionValue, SpecEntry, SpecNode, SpecTensor,
    SpecTensorShape, SpecTensorType, SpecType, SpecTypeValue, SpecValueInfo,
};

verus! {

/// A node that applies `op` to `inputs`, without attributes.
pub open spec fn plain_node(
    op: Seq<char>,
    inputs: Seq<Seq<char>>,
    outputs: Seq<Seq<char>>,
) -> SpecNode {
    SpecNode { input: inputs, output: outputs, op_type: Some(op), attribute: Seq::empty() }
}

/// An attribute that holds the integer `v`.
pub open spec fn int_attribute(name: Seq<char>, v: i64) -> SpecAttribute {
    SpecAttribute {
        name: Some(name),
        attribute_type: Some(ATTRIBUTE_TYPE_INT),
        i: Some(v),
        ints: Seq::empty(),
    }
}

/// An attribute that holds the integers `vs`.
pub open spec fn ints_attribute(name: Seq<char>, vs: Seq<i64>) -> SpecAttribute {
    SpecAttribute {
        name: Some(name),
        attribute_type: Some(ATTRIBUTE_TYPE_INTS),
        i: None,
        ints: vs,
    }
}

/// The attributes of a mean over the last axis of a rank-three tensor that
/// keeps the reduced axis.
pub open spec fn last_axis_mean_attributes() -> Seq<SpecAttribute> {
    seq![ints_attribute("axes"@, seq![2i64]), int_attribute("keepdims"@, 1)]
}

/// A node that takes the mean of `x` over its last axis.
pub open spec fn last_axis_mean(x: Seq<char>, y: Seq<char>) -> SpecNode {
    SpecNode {
        input: seq![x],
        output: seq![y],
        op_type: Some("ReduceMean"@),
        attribute: last_axis_mean_attributes(),
    }
}

/// An entry that maps `key` to `value`.
pub open spec fn entry(key: Seq<char>, value: Seq<char>) -> SpecEntry {
    SpecEntry { key: Some(key), value: Some(value) }
}

/// An axis whose extent is called `s`.
pub open spec fn named_axis(s: Seq<char>) -> SpecDimension {
    SpecDimension { value: Some(SpecDimensionValue::DimParam(s)) }
}

/// An axis of extent `v`.
pub open spec fn sized_axis(v: i64) -> SpecDimension {
    SpecDimension { value: Some(SpecDimensionValue::DimValue(v)) }
}

/// The extent that an axis of length `n` is recorded with: `n` itself, reduced
/// to the range of a signed 64-bit number.
pub open spec fn axis_extent(n: usize) -> i64 {
    if n <= i64::MAX {
        n as i64
    } else {
        (n - 0x1_0000_0000_0000_0000) as i64
    }
}

/// A graph input or output that is a tensor.
pub open spec fn tensor_value(
    name: Seq<char>,
    elem_type: i32,
    dims: Seq<SpecDimension>,
) -> SpecValueInfo {
    SpecValueInfo {
        name: Some(name),
        value_type: Some(
            SpecType {
                value: Some(
                    SpecTypeValue::TensorType(
                        SpecTensorType {
                            elem_type: Some(elem_type),
                            shape: Some(SpecTensorShape { dim: dims }),
                        },
                    ),
                ),
                denotation: None,
            },
        ),
    }
}

/// A constant single-precision scalar with the bit pattern `bits`.
pub open spec fn scalar_tensor(name: Seq<char>, bits: u32) -> SpecTensor {
    SpecTensor {
        dims: Seq::empty(),
        data_type: Some(DATA_TYPE_FLOAT),
        float_data: seq![bits],
        name: Some(name),
        raw_data: None,
        external_data: Seq::empty(),
        data_location: None,
    }
}

/// A node without attributes applies the operator it was given to the inputs
/// it was given, in their order, and writes the outputs it was given.
pub proof fn law_plain_node(op: Seq<char>, inputs: Seq<Seq<char>>, outputs: Seq<Seq<char>>)
    ensures
        plain_node(op, inputs, outputs).op_type == Some(op),
        plain_node(op, inputs, outputs).input == inputs,
        plain_node(op, inputs, outputs).output == outputs,
        plain_node(op, inputs, outputs).attribute.len() == 0,
{
}

/// The integer of an attribute reads back, and its type code says that it
/// holds one integer and no list.
pub proof fn law_int_attribute(name: Seq<char>, v: i64)
    ensures
        int_attribute(name, v).name == Some(name),
        int_attribute(name, v).i == Some(v),
        int_attribute(name, v).attribute_type == Some(2i32),
        int_attribute(name, v).ints.len() == 0,
{
}

/// The integers of an attribute read back, in their order, and its type code
/// says that it holds a list.
pub proof fn law_ints_attribute(name: Seq<char>, vs: Seq<i64>)
    ensures
        ints_attribute(name, vs).name == Some(name),
        ints_attribute(name, vs).ints == vs,
        ints_attribute(name, vs).attribute_type == Some(7i32),
        ints_attribute(name, vs).i is None,
{
}

/// A mean over the last axis reads one tensor and writes one, reduces axis two
/// and no other, and keeps the reduced axis, whatever the tensors are called.
pub proof fn law_last_axis_mean(x: Seq<char>, y: Seq<char>)
    ensures
        ({
            let n = last_axis_mean(x, y);
            &&& n.op_type == Some("ReduceMean"@)
            &&& n.input.len() == 1 && n.input[0] == x
            &&& n.output.len() == 1 && n.output[0] == y
            &&& n.attribute.len() == 2
            &&& n.attribute[0].name == Some("axes"@)
            &&& n.attribute[0].attribute_type == Some(7i32)
            &&& n.attribute[0].ints == seq![2i64]
            &&& n.attribute[0].i is None
            &&& n.attribute[1].ints.len() == 0
            &&& n.attribute[1].name == Some("keepdims"@)
            &&& n.attribute[1].attribute_type == Some(2i32)
            &&& n.attribute[1].i == Some(1i64)
        }),
{
}

/// Key and value of an entry read back.
pub proof fn law_entry(key: Seq<char>, value: Seq<char>)
    ensures
        entry(key, value).key == Some(key),
        entry(key, value).value == Some(value),
{
}

/// The name of an axis and the extent of an axis read back.
pub proof fn law_axes(s: Seq<char>, v: i64)
    ensures
        named_axis(s).value == Some(SpecDimensionValue::DimParam(s)),
        sized_axis(v).value == Some(SpecDimensionValue::DimValue(v)),
{
}

/// An axis is recorded with its length where a signed number can hold it, and
/// else with the signed number that has the same 64 bits.
pub proof fn law_axis_extent(n: usize)
    ensures
        n <= i64::MAX ==> axis_extent(n) == n,
        n > i64::MAX ==> axis_extent(n) < 0,
        (axis_extent(n) - n) % 0x1_0000_0000_0000_0000 == 0,
{
}

/// Two axes are recorded alike only if they are of the same length.
pub proof fn law_axis_extent_injective(m: usize, n: usize)
    requires
        axis_extent(m) == axis_extent(n),
    ensures
        m == n,
{
}

/// Name, element type and axes of a described tensor are those it was
/// described with.
pub proof fn law_tensor_value(name: Seq<char>, elem_type: i32, dims: Seq<SpecDimension>)
    ensures
        tensor_value(name, elem_type, dims).name == Some(name),
        elem_type_of(tensor_value(name, elem_type, dims)) == Some(elem_type),
        axes_of(tensor_value(name, elem_type, dims)) == Some(dims),
        (tensor_value(name, elem_type, dims).value_type->0).denotation is None,
{
}

/// A constant scalar has no axes and one single-precision element, which
/// stands in the model and reads back bit by bit.
pub proof fn law_scalar_tensor(name: Seq<char>, bits: u32)
    ensures
        scalar_tensor(name, bits).name == Some(name),
        scalar_tensor(name, bits).dims.len() == 0,
        scalar_tensor(name, bits).data_type == Some(1i32),
        scalar_tensor(name, bits).float_data.len() == 1,
        scalar_tensor(name, bits).float_data[0] == bits,
        scalar_tensor(name, bits).raw_data is None,
        scalar_tensor(name, bits).external_data.len() == 0,
        scalar_tensor(name, bits).data_location is None,
{
}

/// Describes a tensor-valued input or output of a graph.
pub fn value_info_tensor(name: &str, elem_type: i32, dims: Vec<Dimension>) -> (info: ValueInfoProto)
    ensures
        info.deep_view() == tensor_value(name@, elem_type, dims.deep_view()),
        same_text(info.name, Some(name@)),
        info.value_type is Some,
        (info.value_type->0).denotation is None,
        ((info.value_type->0).value matches Some(TypeValue::TensorType(tensor)) && (
        tensor.elem_type == Some(elem_type)) && tensor.shape is Some && (tensor.shape->0).dim
            == dims),
{
    ValueInfoProto {
        name: Some(name.to_owned()),
        value_type: Some(
            TypeProto {
                value: Some(
                    TypeValue::TensorType(
                        TensorTypeProto {
                            elem_type: Some(elem_type),
                            shape: Some(TensorShapeProto { dim: dims }),
                        },
                    ),
                ),
                denotation: None,
            },
        ),
    }
}

/// An axis whose extent is called `s`.
pub fn dim_param(s: &str) -> (dim: Dimension)
    ensures
        dim.deep_view() == named_axis(s@),
        dim.value matches Some(DimensionValue::DimParam(text)) && text@ == s@,
{
    Dimension { value: Some(DimensionValue::DimParam(s.to_owned())) }
}

/// An axis of extent `v`.
pub fn dim_value(v: i64) -> (dim: Dimension)
    ensures
        dim.deep_view() == sized_axis(v),
        dim.value == Some(DimensionValue::DimValue(v)),
{
    Dimension { value: Some(DimensionValue::DimValue(v)) }
}

/// The extent that an axis of length `n` is recorded with.
pub(crate) fn extent_of(n: usize) -> (extent: i64)
    ensures
        extent == axis_extent(n),
        n <= i64::MAX ==> extent == n,
        (extent - n) % 0x1_0000_0000_0000_0000 == 0,
{
    let word: u64 = n as u64;
    assert(word > 0x7fff_ffff_ffff_ffff ==> (word as i64) == word - 0x1_0000_0000_0000_0000)
        by (bit_vector);
    word as i64
}

/// Applies the operator `op`, without attributes.
pub fn node(op: &str, inputs: Vec<String>, outputs: Vec<String>) -> (n: NodeProto)
    ensures
        n.deep_view() == plain_node(op@, inputs.deep_view(), outputs.deep_view()),
        same_text(n.op_type, Some(op@)),
        n.input == inputs,
        n.output == outputs,
        n.attribute@.len() == 0,
{
    let n = NodeProto {
        input: inputs,
        output: outputs,
        op_type: Some(op.to_owned()),
        attribute: Vec::new(),
    };
    assert(n.attribute.deep_view() =~= Seq::empty());
    n
}

/// An attribute that holds one integer.
pub fn attr_int(name: &str, v: i64) -> (attribute: AttributeProto)
    ensures
        attribute.deep_view() == int_attribute(name@, v),
        same_text(attribute.name, Some(name@)),
        attribute.attribute_type == Some(2i32),
        attribute.i == Some(v),
        attribute.ints@.len() == 0,
{
    AttributeProto {
        name: Some(name.to_owned()),
        attribute_type: Some(ATTRIBUTE_TYPE_INT),
        i: Some(v),
        ints: Vec::new(),
    }
}

/// An attribute that holds a list of integers.
pub fn attr_ints(name: &str, vs: Vec<i64>) -> (attribute: AttributeProto)
    ensures
        attribute.deep_view() == ints_attribute(name@, vs@),
        same_text(attribute.name, Some(name@)),
        attribute.attribute_type == Some(7i32),
        attribute.i is None,
        attribute.ints == vs,
{
    AttributeProto {
        name: Some(name.to_owned()),
        attribute_type: Some(ATTRIBUTE_TYPE_INTS),
        i: None,
        ints: vs,
    }
}

/// A list of one tensor name.
pub(crate) fn one_name(a: &str) -> (names: Vec<String>)
    ensures
        names.deep_view() == seq![a@],
{
    let names = vec![a.to_owned()];
    assert(names.deep_view() =~= seq![a@]);
    names
}

/// A list of two tensor names.
pub(crate) fn two_names(a: &str, b: &str) -> (names: Vec<String>)
    ensures
        names.deep_view() == seq![a@, b@],
{
    let names = vec![a.to_owned(), b.to_owned()];
    assert(names.deep_view() =~= seq![a@, b@]);
    names
}

/// Takes the mean of `x` over its last axis, keeping that axis.
pub fn reduce_mean_lastdim(x: &str, y: &str) -> (n: NodeProto)
    ensures
        n.deep_view() == last_axis_mean(x@, y@),
        same_texts(n.input@, seq![x@]),
        same_texts(n.output@, seq![y@]),
        same_text(n.op_type, Some("ReduceMean"@)),
        n.attribute@.len() == 2,
        same_text(n.attribute@[0].name, Some("axes"@)),
        n.attribute@[0].ints@ == seq![2i64],
        same_text(n.attribute@[1].name, Some("keepdims"@)),
        n.attribute@[1].i == Some(1i64),
{
    let axes: Vec<i64> = vec![2];
    assert(axes@ =~= seq![2i64]);
    let n = NodeProto {
        input: one_name(x),
        output: one_name(y),
        op_type: Some("ReduceMean".to_owned()),
        attribute: vec![attr_ints("axes", axes), attr_int("keepdims", 1)],
    };
    assert(n.attribute.deep_view() =~= last_axis_mean_attributes());
    n
}

/// A constant single-precision scalar, given by its bit pattern.
pub fn const_scalar_f32(name: &str, bits: u32) -> (tensor: TensorProto)
    ensures
        tensor.deep_view() == scalar_tensor(name@, bits),
        same_text(tensor.name, Some(name@)),
        tensor.data_type == Some(1i32),
        tensor.dims@.len() == 0,
        tensor.float_data@ == seq![bits],
        tensor.raw_data is None,
        tensor.external_data@.len() == 0,
        tensor.data_location is None,
{
    let tensor = TensorProto {
        dims: Vec::new(),
        data_type: Some(DATA_TYPE_FLOAT),
        float_data: vec![bits],
        name: Some(name.to_owned()),
        raw_data: None,
        external_data: Vec::new(),
        data_location: None,
    };
    assert(tensor.float_data@ =~= seq![bits]);
    assert(tensor.external_data.deep_view() =~= Seq::empty());
    tensor
}

/// An entry that maps `key` to `value`.
pub fn kv(key: &str, value: String) -> (e: StringStringEntryProto)
    ensures
        e.deep_view() == entry(key@, value@),
        same_text(e.key, Some(key@)),
        e.value == Some(value),
{
    StringStringEntryProto { key: Some(key.to_owned()), value: Some(value) }
}

} // verus!

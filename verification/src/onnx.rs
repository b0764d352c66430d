//! The part of the ONNX message format that a converted model uses.
//!
//! Each message keeps the fields that a converted model can set; a field of
//! the format that is missing here is absent from every converted model. The
//! mathematical counterpart of a message, with sequences in place of strings
//! and vectors, is its deep view.

use vstd::prelude::*;

verus! {

/// Code of the element type `float`.
pub const DATA_TYPE_FLOAT: i32 = 1;

/// Code of the element type `uint8`.
pub const DATA_TYPE_UINT8: i32 = 2;

/// Code of the element type `int8`.
pub const DATA_TYPE_INT8: i32 = 3;

/// Code of the element type `uint16`.
pub const DATA_TYPE_UINT16: i32 = 4;

/// Code of the element type `int16`.
pub const DATA_TYPE_INT16: i32 = 5;

/// Code of the element type `int32`.
pub const DATA_TYPE_INT32: i32 = 6;

/// Code of the element type `int64`.
pub const DATA_TYPE_INT64: i32 = 7;

/// Code of the element type `float16`.
pub const DATA_TYPE_FLOAT16: i32 = 10;

/// Code of the element type `double`.
pub const DATA_TYPE_DOUBLE: i32 = 11;

/// Code of the element type `uint32`.
pub const DATA_TYPE_UINT32: i32 = 12;

/// Code of the element type `uint64`.
pub const DATA_TYPE_UINT64: i32 = 13;

/// Code of the element type `bfloat16`.
pub const DATA_TYPE_BFLOAT16: i32 = 16;

/// Code of an attribute that holds one integer.
pub const ATTRIBUTE_TYPE_INT: i32 = 2;

/// Code of an attribute that holds a list of integers.
pub const ATTRIBUTE_TYPE_INTS: i32 = 7;

/// Code of tensor data that is stored outside the model.
pub const DATA_LOCATION_EXTERNAL: i32 = 1;

/// The extent of one axis: a number, or a name that stands for one.
#[derive(Debug, PartialEq, Eq)]
pub enum DimensionValue {
    DimValue(i64),
    DimParam(String),
}

/// One axis of a tensor shape.
#[derive(Debug, PartialEq, Eq)]
pub struct Dimension {
    pub value: Option<DimensionValue>,
}

/// The shape of a tensor.
#[derive(Debug, PartialEq, Eq)]
pub struct TensorShapeProto {
    pub dim: Vec<Dimension>,
}

/// The type of a tensor: its element type and its shape.
#[derive(Debug, PartialEq, Eq)]
pub struct TensorTypeProto {
    pub elem_type: Option<i32>,
    pub shape: Option<TensorShapeProto>,
}

/// The kinds of types that a value can have.
#[derive(Debug, PartialEq, Eq)]
pub enum TypeValue {
    TensorType(TensorTypeProto),
}

/// The type of a value.
#[derive(Debug, PartialEq, Eq)]
pub struct TypeProto {
    pub value: Option<TypeValue>,
    pub denotation: Option<String>,
}

/// The name and type of an input or output of a graph.
#[derive(Debug, PartialEq, Eq)]
pub struct ValueInfoProto {
    pub name: Option<String>,
    pub value_type: Option<TypeProto>,
}

/// A named attribute of a node.
#[derive(Debug, PartialEq, Eq)]
pub struct AttributeProto {
    pub name: Option<String>,
    pub attribute_type: Option<i32>,
    pub i: Option<i64>,
    pub ints: Vec<i64>,
}

/// One operator application.
#[derive(Debug, PartialEq, Eq)]
pub struct NodeProto {
    pub input: Vec<String>,
    pub output: Vec<String>,
    pub op_type: Option<String>,
    pub attribute: Vec<AttributeProto>,
}

/// A key with a value, both strings.
#[derive(Debug, PartialEq, Eq)]
pub struct StringStringEntryProto {
    pub key: Option<String>,
    pub value: Option<String>,
}

/// A constant tensor. An element of `float_data` is the bit pattern of a
/// single-precision number.
#[derive(Debug, PartialEq, Eq)]
pub struct TensorProto {
    pub dims: Vec<i64>,
    pub data_type: Option<i32>,
    pub float_data: Vec<u32>,
    pub name: Option<String>,
    pub raw_data: Option<Vec<u8>>,
    pub external_data: Vec<StringStringEntryProto>,
    pub data_location: Option<i32>,
}

/// A graph of operator applications, in execution order.
#[derive(Debug, PartialEq, Eq)]
pub struct GraphProto {
    pub node: Vec<NodeProto>,
    pub name: Option<String>,
    pub initializer: Vec<TensorProto>,
    pub input: Vec<ValueInfoProto>,
    pub output: Vec<ValueInfoProto>,
}

/// An operator set and its version.
#[derive(Debug, PartialEq, Eq)]
pub struct OperatorSetIdProto {
    pub domain: Option<String>,
    pub version: Option<i64>,
}

/// A complete model.
#[derive(Debug, PartialEq, Eq)]
pub struct ModelProto {
    pub ir_version: Option<i64>,
    pub opset_import: Vec<OperatorSetIdProto>,
    pub graph: Option<GraphProto>,
}

/// Deep view of a `DimensionValue`.
#[verifier::ext_equal]
pub enum SpecDimensionValue {
    DimValue(i64),
    DimParam(Seq<char>),
}

/// Deep view of a `Dimension`.
#[verifier::ext_equal]
pub struct SpecDimension {
    pub value: Option<SpecDimensionValue>,
}

/// Deep view of a `TensorShapeProto`.
#[verifier::ext_equal]
pub struct SpecTensorShape {
    pub dim: Seq<SpecDimension>,
}

/// Deep view of a `TensorTypeProto`.
#[verifier::ext_equal]
pub struct SpecTensorType {
    pub elem_type: Option<i32>,
    pub shape: Option<SpecTensorShape>,
}

/// Deep view of a `TypeValue`.
#[verifier::ext_equal]
pub enum SpecTypeValue {
    TensorType(SpecTensorType),
}

/// Deep view of a `TypeProto`.
#[verifier::ext_equal]
pub struct SpecType {
    pub value: Option<SpecTypeValue>,
    pub denotation: Option<Seq<char>>,
}

/// Deep view of a `ValueInfoProto`.
#[verifier::ext_equal]
pub struct SpecValueInfo {
    pub name: Option<Seq<char>>,
    pub value_type: Option<SpecType>,
}

/// Deep view of an `AttributeProto`.
#[verifier::ext_equal]
pub struct SpecAttribute {
    pub name: Option<Seq<char>>,
    pub attribute_type: Option<i32>,
    pub i: Option<i64>,
    pub ints: Seq<i64>,
}

/// Deep view of a `NodeProto`.
#[verifier::ext_equal]
pub struct SpecNode {
    pub input: Seq<Seq<char>>,
    pub output: Seq<Seq<char>>,
    pub op_type: Option<Seq<char>>,
    pub attribute: Seq<SpecAttribute>,
}

/// Deep view of a `StringStringEntryProto`.
#[verifier::ext_equal]
pub struct SpecEntry {
    pub key: Option<Seq<char>>,
    pub value: Option<Seq<char>>,
}

/// Deep view of a `TensorProto`.
#[verifier::ext_equal]
pub struct SpecTensor {
    pub dims: Seq<i64>,
    pub data_type: Option<i32>,
    pub float_data: Seq<u32>,
    pub name: Option<Seq<char>>,
    pub raw_data: Option<Seq<u8>>,
    pub external_data: Seq<SpecEntry>,
    pub data_location: Option<i32>,
}

/// Deep view of a `GraphProto`.
#[verifier::ext_equal]
pub struct SpecGraph {
    pub node: Seq<SpecNode>,
    pub name: Option<Seq<char>>,
    pub initializer: Seq<SpecTensor>,
    pub input: Seq<SpecValueInfo>,
    pub output: Seq<SpecValueInfo>,
}

/// Deep view of an `OperatorSetIdProto`.
#[verifier::ext_equal]
pub struct SpecOperatorSetId {
    pub domain: Option<Seq<char>>,
    pub version: Option<i64>,
}

/// Deep view of a `ModelProto`.
#[verifier::ext_equal]
pub struct SpecModel {
    pub ir_version: Option<i64>,
    pub opset_import: Seq<SpecOperatorSetId>,
    pub graph: Option<SpecGraph>,
}

impl DeepView for DimensionValue {
    type V = SpecDimensionValue;

    open spec fn deep_view(&self) -> SpecDimensionValue {
        match self {
            DimensionValue::DimValue(v) => SpecDimensionValue::DimValue(*v),
            DimensionValue::DimParam(s) => SpecDimensionValue::DimParam(s@),
        }
    }
}

impl DeepView for Dimension {
    type V = SpecDimension;

    open spec fn deep_view(&self) -> SpecDimension {
        SpecDimension { value: self.value.deep_view() }
    }
}

impl DeepView for TensorShapeProto {
    type V = SpecTensorShape;

    open spec fn deep_view(&self) -> SpecTensorShape {
        SpecTensorShape { dim: self.dim.deep_view() }
    }
}

impl DeepView for TensorTypeProto {
    type V = SpecTensorType;

    open spec fn deep_view(&self) -> SpecTensorType {
        SpecTensorType { elem_type: self.elem_type, shape: self.shape.deep_view() }
    }
}

impl DeepView for TypeValue {
    type V = SpecTypeValue;

    open spec fn deep_view(&self) -> SpecTypeValue {
        match self {
            TypeValue::TensorType(t) => SpecTypeValue::TensorType(t.deep_view()),
        }
    }
}

impl DeepView for TypeProto {
    type V = SpecType;

    open spec fn deep_view(&self) -> SpecType {
        SpecType { value: self.value.deep_view(), denotation: self.denotation.deep_view() }
    }
}

impl DeepView for ValueInfoProto {
    type V = SpecValueInfo;

    open spec fn deep_view(&self) -> SpecValueInfo {
        SpecValueInfo { name: self.name.deep_view(), value_type: self.value_type.deep_view() }
    }
}

impl DeepView for AttributeProto {
    type V = SpecAttribute;

    open spec fn deep_view(&self) -> SpecAttribute {
        SpecAttribute {
            name: self.name.deep_view(),
            attribute_type: self.attribute_type,
            i: self.i,
            ints: self.ints@,
        }
    }
}

impl DeepView for NodeProto {
    type V = SpecNode;

    open spec fn deep_view(&self) -> SpecNode {
        SpecNode {
            input: self.input.deep_view(),
            output: self.output.deep_view(),
            op_type: self.op_type.deep_view(),
            attribute: self.attribute.deep_view(),
        }
    }
}

impl DeepView for StringStringEntryProto {
    type V = SpecEntry;

    open spec fn deep_view(&self) -> SpecEntry {
        SpecEntry { key: self.key.deep_view(), value: self.value.deep_view() }
    }
}

impl DeepView for TensorProto {
    type V = SpecTensor;

    open spec fn deep_view(&self) -> SpecTensor {
        SpecTensor {
            dims: self.dims@,
            data_type: self.data_type,
            float_data: self.float_data@,
            name: self.name.deep_view(),
            raw_data: match self.raw_data {
                Some(bytes) => Some(bytes@),
                None => None,
            },
            external_data: self.external_data.deep_view(),
            data_location: self.data_location,
        }
    }
}

impl DeepView for GraphProto {
    type V = SpecGraph;

    open spec fn deep_view(&self) -> SpecGraph {
        SpecGraph {
            node: self.node.deep_view(),
            name: self.name.deep_view(),
            initializer: self.initializer.deep_view(),
            input: self.input.deep_view(),
            output: self.output.deep_view(),
        }
    }
}

impl DeepView for OperatorSetIdProto {
    type V = SpecOperatorSetId;

    open spec fn deep_view(&self) -> SpecOperatorSetId {
        SpecOperatorSetId { domain: self.domain.deep_view(), version: self.version }
    }
}

impl DeepView for ModelProto {
    type V = SpecModel;

    open spec fn deep_view(&self) -> SpecModel {
        SpecModel {
            ir_version: self.ir_version,
            opset_import: self.opset_import.deep_view(),
            graph: self.graph.deep_view(),
        }
    }
}

/// The deep view of a vector that grew by one element.
pub proof fn lemma_deep_view_push<T: DeepView>(before: Vec<T>, x: T, after: Vec<T>)
    requires
        after@ == before@.push(x),
    ensures
        after.deep_view() == before.deep_view().push(x.deep_view()),
{
    assert(after.deep_view() =~= before.deep_view().push(x.deep_view()));
}

/// The deep view of the concatenation of two vectors.
pub proof fn lemma_deep_view_append<T: DeepView>(before: Vec<T>, tail: Vec<T>, after: Vec<T>)
    requires
        after@ == before@ + tail@,
    ensures
        after.deep_view() == before.deep_view() + tail.deep_view(),
{
    assert(after.deep_view() =~= before.deep_view() + tail.deep_view());
}

/// The text that an optional string shows is its own.
pub open spec fn same_text(a: Option<String>, b: Option<Seq<char>>) -> bool {
    match (a, b) {
        (Some(x), Some(y)) => x@ == y,
        (None, None) => true,
        _ => false,
    }
}

/// The texts that a list of strings shows are its own, in order.
pub open spec fn same_texts(a: Seq<String>, b: Seq<Seq<char>>) -> bool {
    &&& a.len() == b.len()
    &&& forall|i: int| 0 <= i < a.len() ==> (#[trigger] a[i])@ == b[i]
}

/// Nothing of a node is lost in its deep view.
pub proof fn law_node_view(n: NodeProto)
    ensures
        same_text(n.op_type, n.deep_view().op_type),
        same_texts(n.input@, n.deep_view().input),
        same_texts(n.output@, n.deep_view().output),
        n.attribute@.len() == n.deep_view().attribute.len(),
        forall|i: int|
            0 <= i < n.attribute@.len() ==> n.deep_view().attribute[i] == (
            #[trigger] n.attribute@[i]).deep_view(),
{
}

/// Nothing of an attribute is lost in its deep view.
pub proof fn law_attribute_view(a: AttributeProto)
    ensures
        same_text(a.name, a.deep_view().name),
        a.deep_view().attribute_type == a.attribute_type,
        a.deep_view().i == a.i,
        a.deep_view().ints == a.ints@,
{
}

/// Nothing of an entry is lost in its deep view.
pub proof fn law_entry_view(e: StringStringEntryProto)
    ensures
        same_text(e.key, e.deep_view().key),
        same_text(e.value, e.deep_view().value),
{
}

/// Nothing of a tensor is lost in its deep view.
pub proof fn law_tensor_view(t: TensorProto)
    ensures
        t.deep_view().dims == t.dims@,
        t.deep_view().data_type == t.data_type,
        t.deep_view().float_data == t.float_data@,
        same_text(t.name, t.deep_view().name),
        t.raw_data is Some <==> t.deep_view().raw_data is Some,
        t.raw_data is Some ==> t.deep_view().raw_data->0 == (t.raw_data->0)@,
        t.deep_view().data_location == t.data_location,
        t.external_data@.len() == t.deep_view().external_data.len(),
        forall|i: int|
            0 <= i < t.external_data@.len() ==> t.deep_view().external_data[i] == (
            #[trigger] t.external_data@[i]).deep_view(),
{
}

/// Nothing of a graph is lost in its deep view.
pub proof fn law_graph_view(g: GraphProto)
    ensures
        same_text(g.name, g.deep_view().name),
        g.node@.len() == g.deep_view().node.len(),
        forall|i: int|
            0 <= i < g.node@.len() ==> g.deep_view().node[i] == (#[trigger] g.node@[i]).deep_view(),
        g.initializer@.len() == g.deep_view().initializer.len(),
        forall|i: int|
            0 <= i < g.initializer@.len() ==> g.deep_view().initializer[i] == (
            #[trigger] g.initializer@[i]).deep_view(),
        g.input@.len() == g.deep_view().input.len(),
        forall|i: int|
            0 <= i < g.input@.len() ==> g.deep_view().input[i] == (
            #[trigger] g.input@[i]).deep_view(),
        g.output@.len() == g.deep_view().output.len(),
        forall|i: int|
            0 <= i < g.output@.len() ==> g.deep_view().output[i] == (
            #[trigger] g.output@[i]).deep_view(),
{
}

/// The element type of a described tensor.
pub open spec fn elem_type_of(v: SpecValueInfo) -> Option<i32> {
    match v.value_type {
        Some(t) => match t.value {
            Some(SpecTypeValue::TensorType(tensor)) => tensor.elem_type,
            None => None,
        },
        None => None,
    }
}

/// The axes of a described tensor.
pub open spec fn axes_of(v: SpecValueInfo) -> Option<Seq<SpecDimension>> {
    match v.value_type {
        Some(t) => match t.value {
            Some(SpecTypeValue::TensorType(tensor)) => match tensor.shape {
                Some(shape) => Some(shape.dim),
                None => None,
            },
            None => None,
        },
        None => None,
    }
}

/// Nothing of a described value is lost in its deep view.
pub proof fn law_value_view(v: ValueInfoProto)
    ensures
        same_text(v.name, v.deep_view().name),
        v.value_type is Some <==> v.deep_view().value_type is Some,
        v.value_type matches Some(t) ==> same_text(
            t.denotation,
            (v.deep_view().value_type->0).denotation,
        ),
        v.value_type matches Some(t) ==> (t.value matches Some(TypeValue::TensorType(tensor)) ==> {
            &&& elem_type_of(v.deep_view()) == tensor.elem_type
            &&& tensor.shape is Some <==> axes_of(v.deep_view()) is Some
            &&& tensor.shape matches Some(shape) ==> {
                &&& (axes_of(v.deep_view())->0).len() == shape.dim@.len()
                &&& forall|i: int|
                    0 <= i < shape.dim@.len() ==> (axes_of(v.deep_view())->0)[i] == (
                    #[trigger] shape.dim@[i]).deep_view()
            }
        }),
{
}

/// Nothing of an axis is lost in its deep view.
pub proof fn law_dimension_view(d: Dimension)
    ensures
        d.value is None <==> d.deep_view().value is None,
        d.value matches Some(DimensionValue::DimValue(n)) ==> d.deep_view().value == Some(
            SpecDimensionValue::DimValue(n),
        ),
        d.value matches Some(DimensionValue::DimParam(s)) ==> d.deep_view().value == Some(
            SpecDimensionValue::DimParam(s@),
        ),
{
}

} // verus!

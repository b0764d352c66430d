//! Reading safetensors checkpoints.

use safetensors::tensor::Metadata;
use safetensors::{SafeTensorError, SafeTensors};
use vstd::bytes::u64_from_le_bytes;
use vstd::bytes::{
    lemma_auto_spec_u64_to_from_le_bytes, spec_u64_from_le_bytes, spec_u64_to_le_bytes,
};
use vstd::prelude::*;
use vstd::slice::slice_subrange;

use crate::dtype::Dtype;
use crate::dtype::{dtype_name, dtype_named, law_dtype_name_read_back, SpecDtype};
use crate::error::ConvertError;

verus! {

/// A parsed safetensors file.
#[verifier::external_type_specification]
#[verifier::external_body]
pub struct ExSafeTensors<'data>(SafeTensors<'data>);

/// Why a file is not a safetensors file.
#[verifier::external_type_specification]
#[verifier::external_body]
pub struct ExSafeTensorError(SafeTensorError);

/// A tensor of a checkpoint.
#[derive(Debug, PartialEq, Eq)]
pub struct Tensor<'data> {
    pub name: String,
    pub dtype: Dtype,
    pub shape: Vec<usize>,
    pub data: &'data [u8],
}

/// Deep view of a `Tensor`.
#[verifier::ext_equal]
pub struct SpecWeight {
    pub name: Seq<char>,
    pub dtype: SpecDtype,
    pub shape: Seq<usize>,
    pub data: Seq<u8>,
}

impl<'data> DeepView for Tensor<'data> {
    type V = SpecWeight;

    open spec fn deep_view(&self) -> SpecWeight {
        SpecWeight {
            name: self.name@,
            dtype: self.dtype.deep_view(),
            shape: self.shape@,
            data: self.data@,
        }
    }
}

/// A tensor as a file lists it, with its element type given by name.
#[derive(Debug, PartialEq, Eq)]
pub struct TensorEntry<'data> {
    pub name: String,
    pub dtype: String,
    pub shape: Vec<usize>,
    pub data: &'data [u8],
}

/// Deep view of a `TensorEntry`.
#[verifier::ext_equal]
pub struct SpecTensorEntry {
    pub name: Seq<char>,
    pub dtype: Seq<char>,
    pub shape: Seq<usize>,
    pub data: Seq<u8>,
}

impl<'data> DeepView for TensorEntry<'data> {
    type V = SpecTensorEntry;

    open spec fn deep_view(&self) -> SpecTensorEntry {
        SpecTensorEntry {
            name: self.name@,
            dtype: self.dtype@,
            shape: self.shape@,
            data: self.data@,
        }
    }
}

/// Nothing of a tensor is lost in its deep view.
pub proof fn law_tensor_deep_view(t: Tensor<'_>)
    ensures
        t.deep_view().name == t.name@,
        t.deep_view().dtype == t.dtype.deep_view(),
        t.deep_view().shape == t.shape@,
        t.deep_view().data == t.data@,
{
}

/// Nothing of an entry is lost in its deep view.
pub proof fn law_entry_deep_view(e: TensorEntry<'_>)
    ensures
        e.deep_view().name == e.name@,
        e.deep_view().dtype == e.dtype@,
        e.deep_view().shape == e.shape@,
        e.deep_view().data == e.data@,
{
}

/// The tensor that an entry stands for.
pub open spec fn weight_of(e: SpecTensorEntry) -> SpecWeight {
    SpecWeight { name: e.name, dtype: dtype_named(e.dtype), shape: e.shape, data: e.data }
}

/// Whether `entries` lists the tensors of `held`, each exactly once.
pub open spec fn lists(
    entries: Seq<SpecTensorEntry>,
    held: Map<Seq<char>, (Seq<char>, Seq<usize>, Seq<u8>)>,
) -> bool {
    &&& forall|i: int|
        #![trigger entries[i]]
        0 <= i < entries.len() ==> held.contains_key(entries[i].name) && held[entries[i].name] == (
            entries[i].dtype,
            entries[i].shape,
            entries[i].data,
        )
    &&& forall|i: int, j: int|
        0 <= i < j < entries.len() ==> (#[trigger] entries[i]).name != (#[trigger] entries[j]).name
    &&& forall|name: Seq<char>| #[trigger]
        held.contains_key(name) ==> exists|i: int|
            0 <= i < entries.len() && (#[trigger] entries[i]).name == name
}

/// How many bytes of tensor data the header of a safetensors file declares,
/// or nothing if the header is not valid.
pub uninterp spec fn declared_data_len(header: Seq<u8>) -> Option<usize>;

/// The tensors of a safetensors file by name, each with the name of its
/// element type, its shape and its bytes; nothing if the file is not valid.
pub uninterp spec fn file_tensors(bytes: Seq<u8>) -> Option<
    Map<Seq<char>, (Seq<char>, Seq<usize>, Seq<u8>)>,
>;

/// The tensors that a parsed file holds, by name.
pub uninterp spec fn held_tensors(file: SafeTensors<'_>) -> Map<
    Seq<char>,
    (Seq<char>, Seq<usize>, Seq<u8>),
>;

/// The number of bytes in front of the header, which hold its length.
pub const LENGTH_BYTES: usize = 8;

/// The longest header that a file may have.
pub const MAX_HEADER_BYTES: u64 = 100_000_000;

/// The header of a file, if the file is long enough to hold the one it
/// announces.
pub open spec fn header_of(bytes: Seq<u8>) -> Option<Seq<u8>> {
    if bytes.len() < LENGTH_BYTES {
        None
    } else {
        let n = spec_u64_from_le_bytes(bytes.subrange(0, LENGTH_BYTES as int));
        if n > MAX_HEADER_BYTES || LENGTH_BYTES + n > bytes.len() {
            None
        } else {
            Some(bytes.subrange(LENGTH_BYTES as int, LENGTH_BYTES + n))
        }
    }
}

/// Whether the header declares so much data that the length of the whole file
/// is no machine word.
pub open spec fn data_too_large(bytes: Seq<u8>) -> bool {
    match header_of(bytes) {
        Some(header) => match declared_data_len(header) {
            Some(n) => n + LENGTH_BYTES + header.len() > usize::MAX,
            None => false,
        },
        None => false,
    }
}

/// A file is its header's length in eight bytes, the header and the data. Its
/// header reads back, and it counts as too large exactly if eight, the length
/// of the header and the length of the data that the header declares add up to
/// more than a machine word can hold.
pub proof fn law_framed_file(header: Seq<u8>, data: Seq<u8>)
    requires
        header.len() <= 100_000_000,
    ensures
        ({
            let bytes = spec_u64_to_le_bytes(header.len() as u64) + header + data;
            &&& header_of(bytes) == Some(header)
            &&& data_too_large(bytes) <==> declared_data_len(header) is Some && 8 + header.len()
                + declared_data_len(header)->0 > usize::MAX
        }),
{
    let n = header.len() as u64;
    let bytes = spec_u64_to_le_bytes(n) + header + data;
    lemma_auto_spec_u64_to_from_le_bytes();
    assert(spec_u64_to_le_bytes(n).len() == 8);
    assert(bytes.subrange(0, 8) =~= spec_u64_to_le_bytes(n));
    assert(bytes.subrange(8, 8 + n) =~= header);
}

/// A file that is too short for the header it announces, or announces one that
/// is longer than any may be, never counts as too large.
pub proof fn law_cut_file(bytes: Seq<u8>)
    requires
        bytes.len() < 8 || ({
            let n = spec_u64_from_le_bytes(bytes.subrange(0, 8));
            n > 100_000_000 || 8 + n > bytes.len()
        }),
    ensures
        !data_too_large(bytes),
{
}

/// A file of which the header declares just the data that follows it never
/// counts as too large, provided that its own length is a machine word.
pub proof fn law_complete_file(header: Seq<u8>, data: Seq<u8>)
    requires
        header.len() <= 100_000_000,
        declared_data_len(header) is Some,
        declared_data_len(header)->0 == data.len(),
        8 + header.len() + data.len() <= usize::MAX,
    ensures
        !data_too_large(spec_u64_to_le_bytes(header.len() as u64) + header + data),
{
    law_framed_file(header, data);
}

/// An entry becomes a tensor of the same name, shape and bytes, whose element
/// type is the one that the entry names.
pub proof fn law_weight_of(e: SpecTensorEntry)
    ensures
        weight_of(e).name == e.name,
        weight_of(e).shape == e.shape,
        weight_of(e).data == e.data,
        dtype_name(weight_of(e).dtype) == e.dtype,
{
    law_dtype_name_read_back(e.dtype);
}

/// Parses `header` with `serde_json::from_slice` into the `Metadata` of
/// `safetensors` and asks it for `Metadata::data_len`. Claimed is only that
/// the answer, or its absence, depends on the bytes of the header alone (for a
/// given width of machine words).
#[verifier::external_body]
fn parse_data_len(header: &[u8]) -> (len: Option<usize>)
    ensures
        len == declared_data_len(header@),
{
    serde_json::from_slice::<Metadata>(header).ok().map(|metadata| metadata.data_len())
}

/// Calls `SafeTensors::deserialize`. Claimed is that the bytes alone (for a
/// given width of machine words) decide whether the file is valid and which
/// tensors it holds. The call adds the declared length of the data to the
/// length of the header without a check, so a sum that overflows is left out.
/// Which error comes for an invalid file is left unsaid: it can depend on the
/// order in which a hash map is walked.
#[verifier::external_body]
fn parse_file<'data>(bytes: &'data [u8]) -> (file: Result<SafeTensors<'data>, SafeTensorError>)
    requires
        !data_too_large(bytes@),
    ensures
        match file {
            Ok(f) => file_tensors(bytes@) == Some(held_tensors(f)),
            Err(_) => file_tensors(bytes@) is None,
        },
{
    SafeTensors::deserialize(bytes)
}

/// Calls `SafeTensors::tensors` and turns each tensor view into plain values,
/// its element type into the text that `Dtype` displays as. Claimed is that
/// every tensor of the file comes exactly once. The order is left unsaid: it
/// is that of a hash map.
#[verifier::external_body]
fn list_tensors<'data>(file: &SafeTensors<'data>) -> (entries: Vec<TensorEntry<'data>>)
    ensures
        lists(entries.deep_view(), held_tensors(*file)),
{
    file.tensors().into_iter().map(|(name, view)| TensorEntry {
        name,
        dtype: view.dtype().to_string(),
        shape: view.shape().to_vec(),
        data: view.data(),
    }).collect()
}

/// Whether the header declares more data than a file can have.
fn declares_too_much(bytes: &[u8]) -> (r: bool)
    ensures
        r == data_too_large(bytes@),
{
    if bytes.len() < LENGTH_BYTES {
        return false;
    }
    let n: u64 = u64_from_le_bytes(slice_subrange(bytes, 0, LENGTH_BYTES));
    if n > MAX_HEADER_BYTES || n > (bytes.len() - LENGTH_BYTES) as u64 {
        return false;
    }
    let end: usize = LENGTH_BYTES + n as usize;
    match parse_data_len(slice_subrange(bytes, LENGTH_BYTES, end)) {
        Some(len) => len > usize::MAX - end,
        None => false,
    }
}

/// Resolves the element types of listed tensors.
pub fn tensors_from_entries<'data>(entries: Vec<TensorEntry<'data>>) -> (tensors: Vec<
    Tensor<'data>,
>)
    ensures
        tensors.deep_view() == entries.deep_view().map_values(|e: SpecTensorEntry| weight_of(e)),
        tensors@.len() == entries@.len(),
        forall|i: int|
            #![trigger tensors@[i]]
            0 <= i < entries@.len() ==> {
                &&& tensors@[i].name@ == entries@[i].name@
                &&& tensors@[i].shape@ == entries@[i].shape@
                &&& tensors@[i].data@ == entries@[i].data@
                &&& dtype_name(tensors@[i].dtype.deep_view()) == entries@[i].dtype@
            },
{
    let mut tensors: Vec<Tensor<'data>> = Vec::new();
    for entry in iter: entries
        invariant
            iter.seq() == entries@,
            tensors@.len() == iter.index(),
            forall|i: int|
                0 <= i < iter.index() ==> (#[trigger] tensors@[i]).deep_view() == weight_of(
                    entries@[i].deep_view(),
                ),
            forall|i: int|
                #![trigger tensors@[i]]
                0 <= i < iter.index() ==> {
                    &&& tensors@[i].name@ == entries@[i].name@
                    &&& tensors@[i].shape@ == entries@[i].shape@
                    &&& tensors@[i].data@ == entries@[i].data@
                    &&& dtype_name(tensors@[i].dtype.deep_view()) == entries@[i].dtype@
                },
    {
        tensors.push(
            Tensor {
                name: entry.name,
                dtype: Dtype::from_name(entry.dtype),
                shape: entry.shape,
                data: entry.data,
            },
        );
    }
    proof {
        assert(tensors.deep_view() =~= entries.deep_view().map_values(
            |e: SpecTensorEntry| weight_of(e),
        ));
    }
    tensors
}

/// Whether `tensors` are the tensors of a valid file, each exactly once, in
/// any order.
pub open spec fn tensors_of_file(tensors: Seq<SpecWeight>, bytes: Seq<u8>) -> bool {
    file_tensors(bytes) is Some && exists|entries: Seq<SpecTensorEntry>|
        {
            &&& #[trigger] lists(entries, file_tensors(bytes)->0)
            &&& tensors == entries.map_values(|e: SpecTensorEntry| weight_of(e))
        }
}

/// What it means that tensors are those of a file: each of them is in the file
/// under its name, with its element type, shape and bytes; each tensor of the
/// file is among them; and no two have the same name.
pub proof fn law_tensors_of_file(tensors: Seq<SpecWeight>, bytes: Seq<u8>)
    requires
        tensors_of_file(tensors, bytes),
    ensures
        file_tensors(bytes) is Some,
        forall|i: int|
            #![trigger tensors[i]]
            0 <= i < tensors.len() ==> {
                let held = file_tensors(bytes)->0;
                let t = tensors[i];
                &&& held.contains_key(t.name)
                &&& held[t.name] == (dtype_name(t.dtype), t.shape, t.data)
            },
        forall|name: Seq<char>| #[trigger]
            (file_tensors(bytes)->0).contains_key(name) ==> exists|i: int|
                0 <= i < tensors.len() && (#[trigger] tensors[i]).name == name,
        forall|i: int, j: int|
            0 <= i < j < tensors.len() ==> (#[trigger] tensors[i]).name != (
            #[trigger] tensors[j]).name,
{
    let held = file_tensors(bytes)->0;
    let entries = choose|entries: Seq<SpecTensorEntry>|
        {
            &&& #[trigger] lists(entries, held)
            &&& tensors == entries.map_values(|e: SpecTensorEntry| weight_of(e))
        };
    assert forall|i: int|
        #![trigger tensors[i]]
        0 <= i < tensors.len() implies held.contains_key(tensors[i].name) && held[tensors[i].name]
        == (dtype_name(tensors[i].dtype), tensors[i].shape, tensors[i].data) by {
        assert(tensors[i] == weight_of(entries[i]));
        law_weight_of(entries[i]);
    }
    assert forall|name: Seq<char>| #[trigger] held.contains_key(name) implies exists|i: int|
        0 <= i < tensors.len() && (#[trigger] tensors[i]).name == name by {
        let i = choose|i: int| 0 <= i < entries.len() && (#[trigger] entries[i]).name == name;
        assert(tensors[i] == weight_of(entries[i]));
    }
    assert forall|i: int, j: int| 0 <= i < j < tensors.len() implies (#[trigger] tensors[i]).name
        != (#[trigger] tensors[j]).name by {
        assert(tensors[i] == weight_of(entries[i]));
        assert(tensors[j] == weight_of(entries[j]));
        assert(entries[i].name != entries[j].name);
    }
}

/// Reads all tensors of a checkpoint. Their order is arbitrary.
pub fn read_tensors<'data>(bytes: &'data [u8]) -> (tensors: Result<
    Vec<Tensor<'data>>,
    ConvertError,
>)
    ensures
        match tensors {
            Ok(ts) => !data_too_large(bytes@) && tensors_of_file(ts.deep_view(), bytes@),
            Err(ConvertError::DataTooLarge) => data_too_large(bytes@),
            Err(ConvertError::Parse(_)) => !data_too_large(bytes@) && file_tensors(bytes@) is None,
            Err(_) => false,
        },
        ({
            let n = spec_u64_from_le_bytes(bytes@.subrange(0, 8));
            let declared = declared_data_len(bytes@.subrange(8, 8 + n));
            let announced = bytes@.len() >= 8 && n <= 100_000_000 && 8 + n <= bytes@.len();
            let oversized = announced && declared is Some && declared->0 + 8 + n > usize::MAX;
            &&& oversized <==> tensors == Err::<Vec<Tensor<'data>>, ConvertError>(
                ConvertError::DataTooLarge,
            )
            &&& !oversized && file_tensors(bytes@) is Some <==> tensors is Ok
            &&& announced && declared is Some && declared->0 + 8 + n == bytes@.len() && file_tensors(
                bytes@,
            ) is Some ==> tensors is Ok
        }),
        tensors matches Ok(ts) ==> forall|i: int|
            #![trigger ts@[i]]
            0 <= i < ts@.len() ==> {
                let held = file_tensors(bytes@)->0;
                &&& held.contains_key(ts@[i].name@)
                &&& held[ts@[i].name@] == (
                    dtype_name(ts@[i].dtype.deep_view()),
                    ts@[i].shape@,
                    ts@[i].data@,
                )
            },
        tensors matches Ok(ts) ==> forall|name: Seq<char>| #[trigger]
            (file_tensors(bytes@)->0).contains_key(name) ==> exists|i: int|
                0 <= i < ts@.len() && (#[trigger] ts@[i]).name@ == name,
{
    if declares_too_much(bytes) {
        assert(bytes@.len() == bytes.len());
        return Err(ConvertError::DataTooLarge);
    }
    match parse_file(bytes) {
        Ok(file) => {
            let entries = list_tensors(&file);
            let ghost listed = entries.deep_view();
            let tensors = tensors_from_entries(entries);
            proof {
                assert(lists(listed, file_tensors(bytes@)->0));
                let ws = tensors.deep_view();
                law_tensors_of_file(ws, bytes@);
                assert forall|i: int| 0 <= i < tensors@.len() implies (
                #[trigger] tensors@[i]).deep_view() == ws[i] by {}
                assert forall|name: Seq<char>| #[trigger]
                    (file_tensors(bytes@)->0).contains_key(name) implies exists|i: int|
                    0 <= i < tensors@.len() && (#[trigger] tensors@[i]).name@ == name by {
                    let i = choose|i: int| 0 <= i < ws.len() && (#[trigger] ws[i]).name == name;
                    assert(tensors@[i].deep_view() == ws[i]);
                }
            }
            Ok(tensors)
        },
        Err(e) => Err(ConvertError::Parse(e)),
    }
}

} // verus!

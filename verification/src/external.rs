//! The layout of the external data file and the initializers that point into
//! it.

use vstd::prelude::*;

use crate::builders::{axis_extent, entry};
use crate::builders::{extent_of, kv};
use crate::checkpoint::Tensor;
use crate::checkpoint::{
    file_tensors, lists, tensors_of_file, weight_of, SpecTensorEntry, SpecWeight,
};
use crate::decimal::decimal_string;
use crate::decimal::{
    decimal, decimal_value, is_numeral_of, law_numeral, lemma_decimal_round_trip,
};
use crate::dtype::dtype_to_onnx;
use crate::dtype::Dtype;
use crate::dtype::{dtype_code, dtype_named, SpecDtype};
use crate::error::ConvertError;
use crate::onnx::{lemma_deep_view_push, same_text, SpecEntry, SpecTensor};
use crate::onnx::{TensorProto, DATA_LOCATION_EXTERNAL};

verus! {

/// The entries that say where the bytes of a tensor are.
pub open spec fn external_entries(location: Seq<char>, offset: nat, length: nat) -> Seq<SpecEntry> {
    seq![
        entry("location"@, location),
        entry("offset"@, decimal(offset)),
        entry("length"@, decimal(length)),
    ]
}

/// The initializer of a tensor whose bytes start at `offset` in the file
/// `location`.
pub open spec fn external_tensor(w: SpecWeight, location: Seq<char>, offset: nat) -> SpecTensor {
    SpecTensor {
        dims: w.shape.map_values(|d: usize| axis_extent(d)),
        data_type: dtype_code(w.dtype),
        float_data: Seq::empty(),
        name: Some(w.name),
        raw_data: None,
        external_data: external_entries(location, offset, w.data.len()),
        data_location: Some(DATA_LOCATION_EXTERNAL),
    }
}

/// The bytes of all tensors, one after the other.
pub open spec fn concatenated(ws: Seq<SpecWeight>) -> Seq<u8>
    decreases ws.len(),
{
    if ws.len() == 0 {
        Seq::empty()
    } else {
        concatenated(ws.drop_last()) + ws.last().data
    }
}

/// Where the bytes of tensor `i` start.
pub open spec fn offset_of(ws: Seq<SpecWeight>, i: int) -> nat {
    concatenated(ws.take(i)).len()
}

/// The initializers of tensors that are stored one after the other.
pub open spec fn external_tensors(ws: Seq<SpecWeight>, location: Seq<char>) -> Seq<SpecTensor> {
    Seq::new(ws.len(), |i: int| external_tensor(ws[i], location, offset_of(ws, i)))
}

/// The value of the first entry with the given key.
pub open spec fn entry_value(entries: Seq<SpecEntry>, key: Seq<char>) -> Option<Seq<char>>
    decreases entries.len(),
{
    if entries.len() == 0 {
        None
    } else if entries[0].key == Some(key) {
        entries[0].value
    } else {
        entry_value(entries.drop_first(), key)
    }
}

/// The number that the entry with the given key holds.
pub open spec fn entry_number(t: SpecTensor, key: Seq<char>) -> nat {
    decimal_value(entry_value(t.external_data, key)->0)
}

/// The bytes that an initializer points to in a data file.
pub open spec fn pointed_bytes(file: Seq<u8>, t: SpecTensor) -> Seq<u8> {
    let start = entry_number(t, "offset"@);
    file.subrange(start as int, (start + entry_number(t, "length"@)) as int)
}

/// The bytes of an initializer as a reader of the model finds them. Where the
/// initializer says that its data is external, they are in the file that it
/// names, at the offset and of the length that it gives; else they are in the
/// model itself.
pub open spec fn tensor_bytes(t: SpecTensor, files: Map<Seq<char>, Seq<u8>>) -> Option<Seq<u8>> {
    if t.data_location == Some(1i32) {
        match entry_value(t.external_data, "location"@) {
            Some(location) => {
                let end = entry_number(t, "offset"@) + entry_number(t, "length"@);
                if files.contains_key(location) && end <= files[location].len() {
                    Some(pointed_bytes(files[location], t))
                } else {
                    None
                }
            },
            None => None,
        }
    } else {
        t.raw_data
    }
}

/// Whether `dims` records `shape`: one number for each axis, in order, which is
/// the length of the axis up to a multiple of two to the 64th.
pub open spec fn records_shape(dims: Seq<i64>, shape: Seq<usize>) -> bool {
    &&& dims.len() == shape.len()
    &&& forall|i: int|
        #![trigger dims[i]]
        0 <= i < shape.len() ==> (dims[i] - shape[i]) % 0x1_0000_0000_0000_0000 == 0
}

/// Records the dimensions of a shape.
fn dims_of(shape: &Vec<usize>) -> (dims: Vec<i64>)
    ensures
        dims@ == shape@.map_values(|d: usize| axis_extent(d)),
{
    let mut dims: Vec<i64> = Vec::new();
    let mut i: usize = 0;
    while i < shape.len()
        invariant
            i <= shape.len(),
            dims@.len() == i,
            forall|j: int| 0 <= j < i ==> #[trigger] dims@[j] == axis_extent(shape@[j]),
        decreases shape.len() - i,
    {
        dims.push(extent_of(shape[i]));
        i = i + 1;
    }
    assert(dims@ =~= shape@.map_values(|d: usize| axis_extent(d)));
    dims
}

/// Makes the initializer of a tensor whose bytes were written at `cursor`, and
/// moves `cursor` behind them. The cursor moves even if the element type turns
/// out to be unsupported: the bytes are in the file by then.
pub fn tensor_proto_external(t: &Tensor, location: &str, cursor: &mut u64) -> (tensor: Result<
    TensorProto,
    ConvertError,
>)
    ensures
        match tensor {
            Ok(p) => {
                &&& *old(cursor) + t.data@.len() <= u64::MAX
                &&& dtype_code(t.dtype.deep_view()) is Some
                &&& p.deep_view() == external_tensor(t.deep_view(), location@, *old(cursor) as nat)
                &&& same_text(p.name, Some(t.name@))
                &&& t.dtype !is Other
                &&& p.data_type is Some
                &&& p.data_type == dtype_code(t.dtype.deep_view())
                &&& records_shape(p.dims@, t.shape@)
                &&& p.data_location == Some(1i32)
                &&& p.raw_data is None
                &&& p.float_data@.len() == 0
                &&& p.external_data@.len() == 3
                &&& same_text(p.external_data@[0].key, Some("location"@))
                &&& same_text(p.external_data@[0].value, Some(location@))
                &&& same_text(p.external_data@[1].key, Some("offset"@))
                &&& p.external_data@[1].value is Some
                &&& is_numeral_of((p.external_data@[1].value->0)@, *old(cursor) as nat)
                &&& same_text(p.external_data@[2].key, Some("length"@))
                &&& p.external_data@[2].value is Some
                &&& is_numeral_of((p.external_data@[2].value->0)@, t.data@.len())
                &&& *final(cursor) == *old(cursor) + t.data@.len()
            },
            Err(ConvertError::CursorOverflow) => {
                &&& *old(cursor) + t.data@.len() > u64::MAX
                &&& *final(cursor) == *old(cursor)
            },
            Err(ConvertError::UnsupportedDtype(name)) => {
                &&& *old(cursor) + t.data@.len() <= u64::MAX
                &&& t.dtype.deep_view() == SpecDtype::Other(name@)
                &&& t.dtype matches Dtype::Other(text) && text@ == name@
                &&& *final(cursor) == *old(cursor) + t.data@.len()
            },
            Err(_) => false,
        },
{
    let offset: u64 = *cursor;
    let length: u64 = t.data.len() as u64;
    match offset.checked_add(length) {
        Some(end) => {
            *cursor = end;
        },
        None => {
            return Err(ConvertError::CursorOverflow);
        },
    }
    let data_type = match dtype_to_onnx(&t.dtype) {
        Ok(code) => code,
        Err(e) => {
            return Err(e);
        },
    };
    let tensor = TensorProto {
        dims: dims_of(&t.shape),
        data_type: Some(data_type),
        float_data: Vec::new(),
        name: Some(t.name.clone()),
        raw_data: None,
        external_data: vec![
            kv("location", location.to_owned()),
            kv("offset", decimal_string(offset)),
            kv("length", decimal_string(length)),
        ],
        data_location: Some(DATA_LOCATION_EXTERNAL),
    };
    proof {
        assert(tensor.external_data.deep_view() =~= external_entries(
            location@,
            offset as nat,
            length as nat,
        ));
    }
    Ok(tensor)
}

/// An initializer keeps the name, element type and shape of its tensor, says
/// that its data is external and holds none itself, and gives location, offset
/// and length, the numbers as numerals, whatever they are.
pub proof fn law_external_tensor(w: SpecWeight, location: Seq<char>, offset: nat)
    ensures
        ({
            let t = external_tensor(w, location, offset);
            &&& t.name == Some(w.name)
            &&& t.data_type == dtype_code(w.dtype)
            &&& records_shape(t.dims, w.shape)
            &&& t.data_location == Some(1i32)
            &&& t.raw_data is None
            &&& t.float_data.len() == 0
            &&& t.external_data.len() == 3
            &&& t.external_data[0].key == Some("location"@)
            &&& t.external_data[0].value == Some(location)
            &&& t.external_data[1].key == Some("offset"@)
            &&& t.external_data[1].value is Some
            &&& is_numeral_of(t.external_data[1].value->0, offset)
            &&& t.external_data[2].key == Some("length"@)
            &&& t.external_data[2].value is Some
            &&& is_numeral_of(t.external_data[2].value->0, w.data.len())
        }),
{
    law_numeral(offset);
    law_numeral(w.data.len());
}

/// Wherever a tensor is stored, a reader that follows its initializer gets
/// exactly the part of the named file that starts at its offset and is as long
/// as the tensor.
pub proof fn law_external_tensor_read(
    w: SpecWeight,
    location: Seq<char>,
    offset: nat,
    files: Map<Seq<char>, Seq<u8>>,
)
    requires
        files.contains_key(location),
        offset + w.data.len() <= files[location].len(),
    ensures
        tensor_bytes(external_tensor(w, location, offset), files) == Some(
            files[location].subrange(offset as int, (offset + w.data.len()) as int),
        ),
{
    lemma_entries_read(w, location, offset);
}

/// The data file holds the tensors in the order in which they are stored, with
/// nothing in front, between or behind: it starts empty, and each tensor adds
/// its bytes at the end.
pub proof fn law_file_grows(ws: Seq<SpecWeight>, w: SpecWeight)
    ensures
        concatenated(Seq::empty()).len() == 0,
        concatenated(ws.push(w)) == concatenated(ws) + w.data,
{
    assert(ws.push(w).drop_last() =~= ws);
}

/// The conversion of the weights of a checkpoint, between two writes to the
/// data file: the tensors before `pending` are in the file and have
/// initializers.
pub struct ExternalData<'data> {
    tensors: Vec<Tensor<'data>>,
    location: String,
    cursor: u64,
    initializers: Vec<TensorProto>,
}

impl<'data> ExternalData<'data> {
    /// All tensors of the checkpoint, in the order in which they are stored.
    pub closed spec fn tensors(&self) -> Seq<SpecWeight> {
        self.tensors.deep_view()
    }

    /// The name of the data file.
    pub closed spec fn location(&self) -> Seq<char> {
        self.location@
    }

    /// The number of bytes in the data file.
    pub closed spec fn cursor(&self) -> nat {
        self.cursor as nat
    }

    /// The initializers made so far.
    pub closed spec fn initializers(&self) -> Seq<SpecTensor> {
        self.initializers.deep_view()
    }

    /// The tensors whose bytes are in the data file.
    pub open spec fn stored(&self) -> Seq<SpecWeight> {
        self.tensors().take(self.initializers().len() as int)
    }

    /// The cursor stands behind the stored tensors, and each of them has its
    /// initializer.
    pub open spec fn wf(&self) -> bool {
        &&& self.initializers().len() <= self.tensors().len()
        &&& self.initializers() == external_tensors(self.stored(), self.location())
        &&& self.cursor() == concatenated(self.stored()).len()
        &&& forall|i: int|
            0 <= i < self.stored().len() ==> dtype_code((#[trigger] self.stored()[i]).dtype) is Some
    }

    /// Starts with an empty data file called `location`.
    pub fn new(tensors: Vec<Tensor<'data>>, location: String) -> (state: ExternalData<'data>)
        ensures
            state.wf(),
            state.tensors() == tensors.deep_view(),
            state.location() == location@,
            state.initializers() == Seq::<SpecTensor>::empty(),
    {
        let state = ExternalData { tensors, location, cursor: 0, initializers: Vec::new() };
        proof {
            assert(state.initializers() =~= Seq::empty());
            assert(state.initializers() =~= external_tensors(state.stored(), state.location()));
        }
        state
    }

    /// The tensor whose bytes are to be written next.
    pub fn pending(&self) -> (tensor: Option<&Tensor<'data>>)
        requires
            self.wf(),
        ensures
            match tensor {
                Some(t) => {
                    &&& self.initializers().len() < self.tensors().len()
                    &&& t.deep_view() == self.tensors()[self.initializers().len() as int]
                },
                None => self.initializers().len() == self.tensors().len(),
            },
    {
        let next = self.initializers.len();
        if next < self.tensors.len() {
            Some(&self.tensors[next])
        } else {
            None
        }
    }

    /// Records that the bytes of the pending tensor were written. On an error
    /// nothing is recorded.
    pub fn advance(&mut self) -> (result: Result<(), ConvertError>)
        requires
            old(self).wf(),
            old(self).initializers().len() < old(self).tensors().len(),
        ensures
            final(self).wf(),
            final(self).tensors() == old(self).tensors(),
            final(self).location() == old(self).location(),
            ({
                let w = old(self).tensors()[old(self).initializers().len() as int];
                match result {
                    Ok(()) => {
                        &&& old(self).cursor() + w.data.len() <= u64::MAX
                        &&& dtype_code(w.dtype) is Some
                        &&& final(self).initializers() == old(self).initializers().push(
                            external_tensor(w, old(self).location(), old(self).cursor()),
                        )
                    },
                    Err(ConvertError::CursorOverflow) => {
                        &&& old(self).cursor() + w.data.len() > u64::MAX
                        &&& *final(self) == *old(self)
                    },
                    Err(ConvertError::UnsupportedDtype(name)) => {
                        &&& old(self).cursor() + w.data.len() <= u64::MAX
                        &&& w.dtype == SpecDtype::Other(name@)
                        &&& *final(self) == *old(self)
                    },
                    Err(_) => false,
                }
            }),
    {
        let next = self.initializers.len();
        let mut cursor: u64 = self.cursor;
        let made = tensor_proto_external(&self.tensors[next], &self.location, &mut cursor);
        match made {
            Ok(tensor) => {
                let ghost before = self.initializers;
                let ghost w = self.tensors()[next as int];
                let ghost stored = self.stored();
                self.initializers.push(tensor);
                self.cursor = cursor;
                proof {
                    lemma_deep_view_push(before, tensor, self.initializers);
                    assert(self.stored() =~= stored.push(w));
                    assert(self.stored().drop_last() =~= stored);
                    lemma_external_tensors_push(stored, w, self.location());
                    assert forall|i: int| 0 <= i < self.stored().len() implies dtype_code(
                        (#[trigger] self.stored()[i]).dtype,
                    ) is Some by {
                        if i < stored.len() {
                            assert(self.stored()[i] == stored[i]);
                        }
                    }
                }
                Ok(())
            },
            Err(e) => Err(e),
        }
    }

    /// The initializers made so far.
    pub fn into_initializers(self) -> (initializers: Vec<TensorProto>)
        ensures
            initializers.deep_view() == self.initializers(),
    {
        self.initializers
    }
}

/// The initializers after one more tensor was stored.
proof fn lemma_external_tensors_push(ws: Seq<SpecWeight>, w: SpecWeight, location: Seq<char>)
    ensures
        external_tensors(ws.push(w), location) == external_tensors(ws, location).push(
            external_tensor(w, location, concatenated(ws).len()),
        ),
{
    let longer = ws.push(w);
    assert forall|i: int| 0 <= i < ws.len() implies offset_of(longer, i) == #[trigger] offset_of(
        ws,
        i,
    ) by {
        assert(longer.take(i) =~= ws.take(i));
    }
    assert(longer.take(ws.len() as int) =~= ws);
    assert(external_tensors(longer, location) =~= external_tensors(ws, location).push(
        external_tensor(w, location, concatenated(ws).len()),
    ));
}

/// The bytes of tensor `i` lie at its offset in the concatenation.
proof fn lemma_concatenated_at(ws: Seq<SpecWeight>, i: int)
    requires
        0 <= i < ws.len(),
    ensures
        offset_of(ws, i) + ws[i].data.len() <= concatenated(ws).len(),
        concatenated(ws).subrange(
            offset_of(ws, i) as int,
            (offset_of(ws, i) + ws[i].data.len()) as int,
        ) == ws[i].data,
    decreases ws.len(),
{
    let init = ws.drop_last();
    let start = offset_of(ws, i) as int;
    let end = start + ws[i].data.len();
    if i == ws.len() - 1 {
        assert(ws.take(i) =~= init);
        assert(concatenated(ws).subrange(start, end) =~= ws[i].data);
    } else {
        lemma_concatenated_at(init, i);
        assert(init.take(i) =~= ws.take(i));
        assert(concatenated(ws).subrange(start, end) =~= concatenated(init).subrange(start, end));
    }
}

/// What the entries of an initializer hold.
proof fn lemma_entries_read(w: SpecWeight, location: Seq<char>, offset: nat)
    ensures
        entry_value(external_tensor(w, location, offset).external_data, "location"@) == Some(
            location,
        ),
        entry_number(external_tensor(w, location, offset), "offset"@) == offset,
        entry_number(external_tensor(w, location, offset), "length"@) == w.data.len(),
{
    let entries = external_entries(location, offset, w.data.len());
    reveal_strlit("location");
    reveal_strlit("offset");
    reveal_strlit("length");
    assert("offset"@[0] == 'o');
    assert("length"@[0] == 'l');
    assert("location"@.len() != "offset"@.len());
    assert("location"@.len() != "length"@.len());
    assert(entries.drop_first()[0] == entries[1]);
    assert(entries.drop_first().drop_first()[0] == entries[2]);
    reveal_with_fuel(entry_value, 4);
    lemma_decimal_round_trip(offset);
    lemma_decimal_round_trip(w.data.len());
}

/// What a read gives back of a write: in every state of the conversion, each
/// initializer made so far names the data file, and points to exactly the
/// bytes of its tensor, however the file grows later.
pub proof fn law_stored_bytes_readable(state: ExternalData<'_>, file: Seq<u8>, i: int)
    requires
        state.wf(),
        0 <= i < state.initializers().len(),
        concatenated(state.stored()).is_prefix_of(file),
    ensures
        entry_value(state.initializers()[i].external_data, "location"@) == Some(state.location()),
        pointed_bytes(file, state.initializers()[i]) == state.tensors()[i].data,
        forall|files: Map<Seq<char>, Seq<u8>>|
            #![trigger tensor_bytes(state.initializers()[i], files)]
            files.contains_key(state.location()) && files[state.location()] == file
                ==> tensor_bytes(state.initializers()[i], files) == Some(state.tensors()[i].data),
{
    let ws = state.stored();
    let start = offset_of(ws, i) as int;
    let end = start + ws[i].data.len();
    lemma_entries_read(ws[i], state.location(), offset_of(ws, i));
    lemma_concatenated_at(ws, i);
    assert(file.subrange(start, end) =~= concatenated(ws).subrange(start, end));
}

/// In every state of the conversion each initializer made so far belongs to
/// the tensor at its place: it has its name, its element type and its shape. It
/// says that its data is external, and no data stands in the model.
pub proof fn law_initializers_external(state: ExternalData<'_>, i: int)
    requires
        state.wf(),
        0 <= i < state.initializers().len(),
    ensures
        ({
            let t = state.initializers()[i];
            let w = state.tensors()[i];
            &&& t.name == Some(w.name)
            &&& t.data_type is Some
            &&& t.data_type == dtype_code(w.dtype)
            &&& records_shape(t.dims, w.shape)
            &&& t.data_location == Some(1i32)
            &&& t.raw_data is None
            &&& t.float_data.len() == 0
            &&& t.external_data.len() == 3
        }),
{
    let ws = state.stored();
    assert(dtype_code(ws[i].dtype) is Some);
    law_external_tensor(ws[i], state.location(), offset_of(ws, i));
}

/// The regions of the data file are adjacent, in the order of the tensors: the
/// first starts at zero, each next one starts where the one before it ends,
/// and the cursor stands at the end of the last. So no two regions overlap and
/// no byte is left unused.
pub proof fn law_regions_adjacent(state: ExternalData<'_>, i: int)
    requires
        state.wf(),
        0 <= i < state.initializers().len(),
    ensures
        ({
            let t = state.initializers()[i];
            let end = entry_number(t, "offset"@) + entry_number(t, "length"@);
            &&& i == 0 ==> entry_number(t, "offset"@) == 0
            &&& i + 1 < state.initializers().len() ==> entry_number(
                state.initializers()[i + 1],
                "offset"@,
            ) == end
            &&& i + 1 == state.initializers().len() ==> end == state.cursor()
        }),
{
    let ws = state.stored();
    lemma_entries_read(ws[i], state.location(), offset_of(ws, i));
    assert(ws.take(i + 1).drop_last() =~= ws.take(i));
    if i + 1 < ws.len() {
        lemma_entries_read(ws[i + 1], state.location(), offset_of(ws, i + 1));
    } else {
        assert(ws.take(i + 1) =~= ws);
    }
}

/// The weights survive the conversion: once every tensor of a checkpoint is
/// stored, each tensor of the checkpoint file has exactly one initializer under
/// its name, with its element type and shape, and that initializer points to
/// its bytes in the data file.
pub proof fn law_checkpoint_preserved(
    state: ExternalData<'_>,
    checkpoint: Seq<u8>,
    file: Seq<u8>,
    name: Seq<char>,
)
    requires
        state.wf(),
        tensors_of_file(state.tensors(), checkpoint),
        state.initializers().len() == state.tensors().len(),
        concatenated(state.tensors()).is_prefix_of(file),
        (file_tensors(checkpoint)->0).contains_key(name),
    ensures
        exists|i: int|
            {
                let (dtype, shape, data) = (file_tensors(checkpoint)->0)[name];
                let t = #[trigger] state.initializers()[i];
                &&& 0 <= i < state.initializers().len()
                &&& t.name == Some(name)
                &&& t.data_type == dtype_code(dtype_named(dtype))
                &&& t.data_type is Some
                &&& t.dims == shape.map_values(|d: usize| axis_extent(d))
                &&& records_shape(t.dims, shape)
                &&& t.data_location == Some(1i32)
                &&& t.raw_data is None
                &&& pointed_bytes(file, t) == data
                &&& forall|files: Map<Seq<char>, Seq<u8>>|
                    #![trigger tensor_bytes(t, files)]
                    files.contains_key(state.location()) && files[state.location()] == file
                        ==> tensor_bytes(t, files) == Some(data)
            },
        forall|i: int, j: int|
            0 <= i < j < state.initializers().len() ==> (#[trigger] state.initializers()[i]).name
                != (#[trigger] state.initializers()[j]).name,
{
    let held = file_tensors(checkpoint)->0;
    let ws = state.tensors();
    let entries = choose|entries: Seq<SpecTensorEntry>|
        {
            &&& #[trigger] lists(entries, held)
            &&& ws == entries.map_values(|e: SpecTensorEntry| weight_of(e))
        };
    assert(state.stored() =~= ws);
    let i = choose|i: int| 0 <= i < entries.len() && (#[trigger] entries[i]).name == name;
    assert(ws[i] == weight_of(entries[i]));
    assert(dtype_code(state.stored()[i].dtype) is Some);
    law_stored_bytes_readable(state, file, i);
    law_initializers_external(state, i);
    assert(state.initializers()[i].name == Some(name));
    assert forall|i: int, j: int| 0 <= i < j < state.initializers().len() implies (
    #[trigger] state.initializers()[i]).name != (#[trigger] state.initializers()[j]).name by {
        assert(ws[i] == weight_of(entries[i]));
        assert(ws[j] == weight_of(entries[j]));
        assert(entries[i].name != entries[j].name);
    }
}

} // verus!

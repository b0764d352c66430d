//! Element types of checkpoints and their codes in the model format.

use vstd::prelude::*;

use crate::error::ConvertError;
use crate::onnx::{
    DATA_TYPE_BFLOAT16, DATA_TYPE_DOUBLE, DATA_TYPE_FLOAT, DATA_TYPE_FLOAT16, DATA_TYPE_INT16,
    DATA_TYPE_INT32, DATA_TYPE_INT64, DATA_TYPE_INT8, DATA_TYPE_UINT16, DATA_TYPE_UINT32,
    DATA_TYPE_UINT64, DATA_TYPE_UINT8,
};

verus! {

/// The element type of a tensor in a checkpoint. A type that the model format
/// has no code for is kept by its name.
#[derive(Debug, PartialEq, Eq)]
pub enum Dtype {
    F32,
    F64,
    I32,
    I64,
    U8,
    I8,
    U16,
    I16,
    U32,
    U64,
    F16,
    BF16,
    Other(String),
}

/// Deep view of a `Dtype`.
#[verifier::ext_equal]
pub enum SpecDtype {
    F32,
    F64,
    I32,
    I64,
    U8,
    I8,
    U16,
    I16,
    U32,
    U64,
    F16,
    BF16,
    Other(Seq<char>),
}

impl DeepView for Dtype {
    type V = SpecDtype;

    open spec fn deep_view(&self) -> SpecDtype {
        match self {
            Dtype::F32 => SpecDtype::F32,
            Dtype::F64 => SpecDtype::F64,
            Dtype::I32 => SpecDtype::I32,
            Dtype::I64 => SpecDtype::I64,
            Dtype::U8 => SpecDtype::U8,
            Dtype::I8 => SpecDtype::I8,
            Dtype::U16 => SpecDtype::U16,
            Dtype::I16 => SpecDtype::I16,
            Dtype::U32 => SpecDtype::U32,
            Dtype::U64 => SpecDtype::U64,
            Dtype::F16 => SpecDtype::F16,
            Dtype::BF16 => SpecDtype::BF16,
            Dtype::Other(name) => SpecDtype::Other(name@),
        }
    }
}

/// Nothing of an element type is lost in its deep view.
pub proof fn law_dtype_view(dt: Dtype)
    ensures
        dt is Other <==> dt.deep_view() is Other,
        dt matches Dtype::Other(name) ==> dt.deep_view() == SpecDtype::Other(name@),
{
}

/// The element type that a checkpoint calls `name`.
pub open spec fn dtype_named(name: Seq<char>) -> SpecDtype {
    if name == "F32"@ {
        SpecDtype::F32
    } else if name == "F64"@ {
        SpecDtype::F64
    } else if name == "I32"@ {
        SpecDtype::I32
    } else if name == "I64"@ {
        SpecDtype::I64
    } else if name == "U8"@ {
        SpecDtype::U8
    } else if name == "I8"@ {
        SpecDtype::I8
    } else if name == "U16"@ {
        SpecDtype::U16
    } else if name == "I16"@ {
        SpecDtype::I16
    } else if name == "U32"@ {
        SpecDtype::U32
    } else if name == "U64"@ {
        SpecDtype::U64
    } else if name == "F16"@ {
        SpecDtype::F16
    } else if name == "BF16"@ {
        SpecDtype::BF16
    } else {
        SpecDtype::Other(name)
    }
}

/// The code of an element type in the model format, if it has one.
pub open spec fn dtype_code(dt: SpecDtype) -> Option<i32> {
    match dt {
        SpecDtype::F32 => Some(DATA_TYPE_FLOAT),
        SpecDtype::F64 => Some(DATA_TYPE_DOUBLE),
        SpecDtype::I32 => Some(DATA_TYPE_INT32),
        SpecDtype::I64 => Some(DATA_TYPE_INT64),
        SpecDtype::U8 => Some(DATA_TYPE_UINT8),
        SpecDtype::I8 => Some(DATA_TYPE_INT8),
        SpecDtype::U16 => Some(DATA_TYPE_UINT16),
        SpecDtype::I16 => Some(DATA_TYPE_INT16),
        SpecDtype::U32 => Some(DATA_TYPE_UINT32),
        SpecDtype::U64 => Some(DATA_TYPE_UINT64),
        SpecDtype::F16 => Some(DATA_TYPE_FLOAT16),
        SpecDtype::BF16 => Some(DATA_TYPE_BFLOAT16),
        SpecDtype::Other(_) => None,
    }
}

/// What a checkpoint calls an element type.
pub open spec fn dtype_name(dt: SpecDtype) -> Seq<char> {
    match dt {
        SpecDtype::F32 => "F32"@,
        SpecDtype::F64 => "F64"@,
        SpecDtype::I32 => "I32"@,
        SpecDtype::I64 => "I64"@,
        SpecDtype::U8 => "U8"@,
        SpecDtype::I8 => "I8"@,
        SpecDtype::U16 => "U16"@,
        SpecDtype::I16 => "I16"@,
        SpecDtype::U32 => "U32"@,
        SpecDtype::U64 => "U64"@,
        SpecDtype::F16 => "F16"@,
        SpecDtype::BF16 => "BF16"@,
        SpecDtype::Other(name) => name,
    }
}

/// No element type is taken for another: the name under which a checkpoint
/// lists it comes back from the type it is resolved to.
pub proof fn law_dtype_name_read_back(name: Seq<char>)
    ensures
        dtype_name(dtype_named(name)) == name,
{
}

/// The names of the element types that the model format has a code for.
proof fn lemma_dtype_name_shapes()
    ensures
        "F32"@.len() == 3 && "F32"@[0] == 'F' && "F32"@[1] == '3' && "F32"@[2] == '2',
        "F64"@.len() == 3 && "F64"@[0] == 'F' && "F64"@[1] == '6' && "F64"@[2] == '4',
        "I32"@.len() == 3 && "I32"@[0] == 'I' && "I32"@[1] == '3' && "I32"@[2] == '2',
        "I64"@.len() == 3 && "I64"@[0] == 'I' && "I64"@[1] == '6' && "I64"@[2] == '4',
        "U8"@.len() == 2 && "U8"@[0] == 'U' && "U8"@[1] == '8',
        "I8"@.len() == 2 && "I8"@[0] == 'I' && "I8"@[1] == '8',
        "U16"@.len() == 3 && "U16"@[0] == 'U' && "U16"@[1] == '1' && "U16"@[2] == '6',
        "I16"@.len() == 3 && "I16"@[0] == 'I' && "I16"@[1] == '1' && "I16"@[2] == '6',
        "U32"@.len() == 3 && "U32"@[0] == 'U' && "U32"@[1] == '3' && "U32"@[2] == '2',
        "U64"@.len() == 3 && "U64"@[0] == 'U' && "U64"@[1] == '6' && "U64"@[2] == '4',
        "F16"@.len() == 3 && "F16"@[0] == 'F' && "F16"@[1] == '1' && "F16"@[2] == '6',
        "BF16"@.len() == 4 && "BF16"@[0] == 'B' && "BF16"@[1] == 'F' && "BF16"@[2] == '1' && "BF16"@[3] == '6',
{
    reveal_strlit("F32");
    reveal_strlit("F64");
    reveal_strlit("I32");
    reveal_strlit("I64");
    reveal_strlit("U8");
    reveal_strlit("I8");
    reveal_strlit("U16");
    reveal_strlit("I16");
    reveal_strlit("U32");
    reveal_strlit("U64");
    reveal_strlit("F16");
    reveal_strlit("BF16");
}

/// Every element type that the model format has a code for is recognised by
/// its name.
pub proof fn law_dtype_recognised(dt: SpecDtype)
    requires
        dt !is Other,
    ensures
        dtype_named(dtype_name(dt)) == dt,
{
    lemma_dtype_name_shapes();
}

/// Exactly the element types that are known by more than their name have a
/// code; for every other one the conversion stops.
pub proof fn law_dtype_supported(dt: SpecDtype)
    ensures
        dtype_code(dt) is Some <==> dt !is Other,
{
}

/// The codes are those of the model format.
pub proof fn law_dtype_codes(name: Seq<char>, code: i32)
    ensures
        dtype_code(dtype_named(name)) == Some(code) <==> {
            ||| name == "F32"@ && code == 1
            ||| name == "F64"@ && code == 11
            ||| name == "I32"@ && code == 6
            ||| name == "I64"@ && code == 7
            ||| name == "U8"@ && code == 2
            ||| name == "I8"@ && code == 3
            ||| name == "U16"@ && code == 4
            ||| name == "I16"@ && code == 5
            ||| name == "U32"@ && code == 12
            ||| name == "U64"@ && code == 13
            ||| name == "F16"@ && code == 10
            ||| name == "BF16"@ && code == 16
        },
{
    lemma_dtype_name_shapes();
}

/// Different supported element types have different codes: the code of a
/// tensor tells its element type.
pub proof fn law_dtype_codes_distinct(a: SpecDtype, b: SpecDtype)
    requires
        dtype_code(a) is Some,
        dtype_code(a) == dtype_code(b),
    ensures
        a == b,
{
}

impl Dtype {
    /// The element type that a checkpoint calls `name`.
    pub fn from_name(name: String) -> (dt: Dtype)
        ensures
            dt.deep_view() == dtype_named(name@),
            dtype_name(dt.deep_view()) == name@,
    {
        if name == "F32".to_owned() {
            Dtype::F32
        } else if name == "F64".to_owned() {
            Dtype::F64
        } else if name == "I32".to_owned() {
            Dtype::I32
        } else if name == "I64".to_owned() {
            Dtype::I64
        } else if name == "U8".to_owned() {
            Dtype::U8
        } else if name == "I8".to_owned() {
            Dtype::I8
        } else if name == "U16".to_owned() {
            Dtype::U16
        } else if name == "I16".to_owned() {
            Dtype::I16
        } else if name == "U32".to_owned() {
            Dtype::U32
        } else if name == "U64".to_owned() {
            Dtype::U64
        } else if name == "F16".to_owned() {
            Dtype::F16
        } else if name == "BF16".to_owned() {
            Dtype::BF16
        } else {
            Dtype::Other(name)
        }
    }
}

/// The code of an element type in the model format.
pub fn dtype_to_onnx(dt: &Dtype) -> (code: Result<i32, ConvertError>)
    ensures
        match code {
            Ok(c) => dtype_code(dt.deep_view()) == Some(c),
            Err(ConvertError::UnsupportedDtype(name)) => dt.deep_view() == SpecDtype::Other(name@),
            Err(_) => false,
        },
        *dt matches Dtype::Other(name) ==> (code matches Err(ConvertError::UnsupportedDtype(text))
            && text@ == name@),
        *dt !is Other ==> code is Ok,
{
    match dt {
        Dtype::F32 => Ok(DATA_TYPE_FLOAT),
        Dtype::F64 => Ok(DATA_TYPE_DOUBLE),
        Dtype::I32 => Ok(DATA_TYPE_INT32),
        Dtype::I64 => Ok(DATA_TYPE_INT64),
        Dtype::U8 => Ok(DATA_TYPE_UINT8),
        Dtype::I8 => Ok(DATA_TYPE_INT8),
        Dtype::U16 => Ok(DATA_TYPE_UINT16),
        Dtype::I16 => Ok(DATA_TYPE_INT16),
        Dtype::U32 => Ok(DATA_TYPE_UINT32),
        Dtype::U64 => Ok(DATA_TYPE_UINT64),
        Dtype::F16 => Ok(DATA_TYPE_FLOAT16),
        Dtype::BF16 => Ok(DATA_TYPE_BFLOAT16),
        Dtype::Other(name) => Err(ConvertError::UnsupportedDtype(name.clone())),
    }
}

} // verus!

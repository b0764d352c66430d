//! What can go wrong in a conversion.

use safetensors::SafeTensorError;
use vstd::prelude::*;
use vstd::string::StringExecFns;

verus! {

/// Why a checkpoint cannot be converted.
#[derive(Debug)]
pub enum ConvertError {
    /// The checkpoint is not a valid safetensors file.
    Parse(SafeTensorError),
    /// The header of the checkpoint declares more data than the address space
    /// can hold.
    DataTooLarge,
    /// The element type with this name has no counterpart in the model format.
    UnsupportedDtype(String),
    /// The external data would be longer than a 64-bit offset can express.
    CursorOverflow,
}

/// The text that describes an error.
pub open spec fn error_text(e: ConvertError) -> Seq<char> {
    match e {
        ConvertError::Parse(_) => "parse safetensors file"@,
        ConvertError::DataTooLarge => "parse safetensors file"@,
        ConvertError::UnsupportedDtype(name) => "unsupported dtype: "@ + name@,
        ConvertError::CursorOverflow => "external data cursor overflow"@,
    }
}

/// The description of an unsupported element type ends in the name of the
/// type, so that different types are described differently.
pub proof fn law_unsupported_text(a: String, b: String)
    ensures
        ({
            let s = error_text(ConvertError::UnsupportedDtype(a));
            let t = error_text(ConvertError::UnsupportedDtype(b));
            &&& s.take("unsupported dtype: "@.len() as int) == "unsupported dtype: "@
            &&& s.skip("unsupported dtype: "@.len() as int) == a@
            &&& s == t ==> a@ == b@
        }),
{
    let s = error_text(ConvertError::UnsupportedDtype(a));
    let t = error_text(ConvertError::UnsupportedDtype(b));
    let n = "unsupported dtype: "@.len() as int;
    assert(s.take(n) =~= "unsupported dtype: "@);
    assert(s.skip(n) =~= a@);
    assert(t.skip(n) =~= b@);
}

impl ConvertError {
    /// The text that describes the error.
    pub fn message(&self) -> (text: String)
        ensures
            text@ == error_text(*self),
            *self matches ConvertError::UnsupportedDtype(name) ==> text@ == "unsupported dtype: "@
                + name@,
            *self is Parse || *self is DataTooLarge ==> text@ == "parse safetensors file"@,
            *self is CursorOverflow ==> text@ == "external data cursor overflow"@,
    {
        match self {
            ConvertError::Parse(_) => "parse safetensors file".to_owned(),
            ConvertError::DataTooLarge => "parse safetensors file".to_owned(),
            ConvertError::UnsupportedDtype(name) => {
                let mut text = "unsupported dtype: ".to_owned();
                text.append(name);
                text
            },
            ConvertError::CursorOverflow => "external data cursor overflow".to_owned(),
        }
    }
}

} // verus!

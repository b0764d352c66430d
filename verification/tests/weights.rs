use safetensors_to_onnx::checkpoint::{read_tensors, tensors_from_entries, Tensor, TensorEntry};
use safetensors_to_onnx::dtype::{dtype_to_onnx, Dtype};
use safetensors_to_onnx::error::ConvertError;
use safetensors_to_onnx::external::{tensor_proto_external, ExternalData};
use safetensors_to_onnx::onnx::{StringStringEntryProto, TensorProto};

fn file(header: &str, data: &[u8]) -> Vec<u8> {
    let mut bytes = (header.len() as u64).to_le_bytes().to_vec();
    bytes.extend_from_slice(header.as_bytes());
    bytes.extend_from_slice(data);
    bytes
}

fn tensor<'a>(name: &str, dtype: Dtype, shape: Vec<usize>, data: &'a [u8]) -> Tensor<'a> {
    Tensor { name: name.to_string(), dtype, shape, data }
}

fn number(t: &TensorProto, key: &str) -> usize {
    let entry = t.external_data.iter().find(|e| e.key.as_deref() == Some(key)).unwrap();
    entry.value.as_ref().unwrap().parse().unwrap()
}

/// Writes every tensor to a buffer in place of a file.
fn convert(tensors: Vec<Tensor<'_>>) -> Result<(Vec<u8>, Vec<TensorProto>), ConvertError> {
    let mut written: Vec<u8> = vec![];
    let mut state = ExternalData::new(tensors, "model.onnx_data".to_string());
    while let Some(t) = state.pending() {
        written.extend_from_slice(t.data);
        state.advance()?;
    }
    Ok((written, state.into_initializers()))
}

#[test]
fn supported_dtypes() {
    let codes = [
        ("F32", 1),
        ("U8", 2),
        ("I8", 3),
        ("U16", 4),
        ("I16", 5),
        ("I32", 6),
        ("I64", 7),
        ("F16", 10),
        ("F64", 11),
        ("U32", 12),
        ("U64", 13),
        ("BF16", 16),
    ];
    for (name, code) in codes {
        let dt = Dtype::from_name(name.to_string());
        assert_eq!(dtype_to_onnx(&dt).unwrap(), code);
    }
}

#[test]
fn dtype_names() {
    assert_eq!(Dtype::from_name("BF16".to_string()), Dtype::BF16);
    assert_eq!(Dtype::from_name("I16".to_string()), Dtype::I16);
    assert_eq!(Dtype::from_name("bf16".to_string()), Dtype::Other("bf16".to_string()));
    assert_eq!(Dtype::from_name("".to_string()), Dtype::Other("".to_string()));
}

#[test]
fn unsupported_dtype() {
    let e = dtype_to_onnx(&Dtype::Other("BOOL".to_string())).unwrap_err();
    assert_eq!(e.message(), "unsupported dtype: BOOL");
}

#[test]
fn external_initializer() {
    let data = [0u8; 24];
    let t = tensor("w", Dtype::F32, vec![2, 3], &data);
    let mut cursor = 1000u64;
    let p = tensor_proto_external(&t, "m.onnx_data", &mut cursor).unwrap();
    let entry = |k: &str, v: &str| StringStringEntryProto {
        key: Some(k.to_string()),
        value: Some(v.to_string()),
    };
    assert_eq!(
        p,
        TensorProto {
            dims: vec![2, 3],
            data_type: Some(1),
            float_data: vec![],
            name: Some("w".to_string()),
            raw_data: None,
            external_data: vec![
                entry("location", "m.onnx_data"),
                entry("offset", "1000"),
                entry("length", "24"),
            ],
            data_location: Some(1),
        }
    );
    assert_eq!(cursor, 1024);
}

#[test]
fn oversized_axis_wraps() {
    let t = tensor("w", Dtype::U8, vec![0, usize::MAX], &[]);
    let mut cursor = 0u64;
    let p = tensor_proto_external(&t, "d", &mut cursor).unwrap();
    assert_eq!(p.dims, vec![0, usize::MAX as i64]);
}

#[test]
fn cursor_overflow() {
    let t = tensor("w", Dtype::U8, vec![2], &[1, 2]);
    let mut cursor = u64::MAX - 1;
    let e = tensor_proto_external(&t, "d", &mut cursor).unwrap_err();
    assert!(matches!(e, ConvertError::CursorOverflow));
    assert_eq!(e.message(), "external data cursor overflow");
    assert_eq!(cursor, u64::MAX - 1);
    let mut cursor = u64::MAX - 2;
    assert!(tensor_proto_external(&t, "d", &mut cursor).is_ok());
    assert_eq!(cursor, u64::MAX);
}

#[test]
fn cursor_moves_before_dtype_is_checked() {
    let t = tensor("w", Dtype::Other("C64".to_string()), vec![1], &[0; 8]);
    let mut cursor = 5u64;
    let e = tensor_proto_external(&t, "d", &mut cursor).unwrap_err();
    assert!(matches!(e, ConvertError::UnsupportedDtype(name) if name == "C64"));
    assert_eq!(cursor, 13);
}

#[test]
fn stored_bytes_read_back() {
    let tensors = vec![
        tensor("a", Dtype::U8, vec![3], &[1, 2, 3]),
        tensor("empty", Dtype::F32, vec![0], &[]),
        tensor("b", Dtype::I16, vec![1, 2], &[4, 5, 6, 7]),
    ];
    let (written, initializers) = convert(tensors).unwrap();
    assert_eq!(written, vec![1, 2, 3, 4, 5, 6, 7]);
    let expected: [&[u8]; 3] = [&[1, 2, 3], &[], &[4, 5, 6, 7]];
    let mut end = 0;
    for (t, bytes) in initializers.iter().zip(expected) {
        let (start, len) = (number(t, "offset"), number(t, "length"));
        assert_eq!(&written[start..start + len], bytes);
        assert_eq!(start, end);
        end = start + len;
    }
    assert_eq!(end, written.len());
}

#[test]
fn conversion_stops_at_unsupported_dtype() {
    let mut state = ExternalData::new(
        vec![
            tensor("a", Dtype::U8, vec![1], &[9]),
            tensor("b", Dtype::Other("BOOL".to_string()), vec![1], &[1]),
        ],
        "d".to_string(),
    );
    assert_eq!(state.pending().unwrap().name, "a");
    state.advance().unwrap();
    assert_eq!(state.pending().unwrap().name, "b");
    assert!(matches!(state.advance(), Err(ConvertError::UnsupportedDtype(_))));
    assert_eq!(state.pending().unwrap().name, "b");
    assert_eq!(state.into_initializers().len(), 1);
}

#[test]
fn no_tensors() {
    let (written, initializers) = convert(vec![]).unwrap();
    assert!(written.is_empty());
    assert!(initializers.is_empty());
}

#[test]
fn checkpoint_tensors() {
    let header = r#"{"w":{"dtype":"BF16","shape":[1,2],"data_offsets":[0,4]},"flag":{"dtype":"BOOL","shape":[1],"data_offsets":[4,5]}}"#;
    let bytes = file(header, &[1, 2, 3, 4, 5]);
    let mut tensors = read_tensors(&bytes).unwrap();
    tensors.sort_by(|a, b| a.name.cmp(&b.name));
    assert_eq!(
        tensors,
        vec![
            tensor("flag", Dtype::Other("BOOL".to_string()), vec![1], &[5]),
            tensor("w", Dtype::BF16, vec![1, 2], &[1, 2, 3, 4]),
        ]
    );
}

#[test]
fn checkpoint_written_by_safetensors() {
    let data = [7u8; 16];
    let view =
        safetensors::tensor::TensorView::new(safetensors::Dtype::F64, vec![2], &data).unwrap();
    let bytes = safetensors::serialize([("x".to_string(), view)], None).unwrap();
    let tensors = read_tensors(&bytes).unwrap();
    assert_eq!(tensors, vec![tensor("x", Dtype::F64, vec![2], &data)]);
}

#[test]
fn checkpoint_survives_conversion() {
    let header = r#"{"a":{"dtype":"F16","shape":[2],"data_offsets":[0,4]},"b":{"dtype":"U8","shape":[3],"data_offsets":[4,7]}}"#;
    let bytes = file(header, &[10, 11, 12, 13, 20, 21, 22]);
    let (written, initializers) = convert(read_tensors(&bytes).unwrap()).unwrap();
    assert_eq!(initializers.len(), 2);
    let find = |name: &str| initializers.iter().find(|t| t.name.as_deref() == Some(name)).unwrap();
    let read = |t: &TensorProto| {
        let start = number(t, "offset");
        written[start..start + number(t, "length")].to_vec()
    };
    let a = find("a");
    assert_eq!((a.data_type, a.dims.clone(), read(a)), (Some(10), vec![2], vec![10, 11, 12, 13]));
    let b = find("b");
    assert_eq!((b.data_type, b.dims.clone(), read(b)), (Some(2), vec![3], vec![20, 21, 22]));
}

#[test]
fn empty_checkpoint() {
    assert_eq!(read_tensors(&file("{}", &[])).unwrap(), vec![]);
}

#[test]
fn invalid_checkpoints() {
    let valid = r#"{"w":{"dtype":"U8","shape":[2],"data_offsets":[0,2]}}"#;
    let unknown = r#"{"w":{"dtype":"U7","shape":[2],"data_offsets":[0,2]}}"#;
    let files = [
        vec![],
        vec![1, 2, 3],
        vec![255; 8],
        file("not json", &[]),
        file(valid, &[1]),
        file(valid, &[1, 2, 3]),
        file(unknown, &[1, 2]),
    ];
    for bytes in files {
        let e = read_tensors(&bytes).unwrap_err();
        assert!(matches!(e, ConvertError::Parse(_)));
        assert_eq!(e.message(), "parse safetensors file");
    }
    assert!(read_tensors(&file(valid, &[1, 2])).is_ok());
}

#[test]
fn declared_data_beyond_address_space() {
    let size = (1u64 << 61) - 1;
    let tensors: Vec<String> = (0..8u64)
        .map(|i| {
            format!(
                r#""t{i}":{{"dtype":"U8","shape":[{size}],"data_offsets":[{},{}]}}"#,
                i * size,
                (i + 1) * size
            )
        })
        .collect();
    let bytes = file(&format!("{{{}}}", tensors.join(",")), &[]);
    let e = read_tensors(&bytes).unwrap_err();
    assert!(matches!(e, ConvertError::DataTooLarge));
    assert_eq!(e.message(), "parse safetensors file");
}

#[test]
fn declared_data_beyond_file() {
    let header = r#"{"w":{"dtype":"U8","shape":[2305843009213693951],"data_offsets":[0,2305843009213693951]}}"#;
    assert!(matches!(read_tensors(&file(header, &[])), Err(ConvertError::Parse(_))));
}

#[test]
fn entries_become_tensors() {
    let entries = vec![
        TensorEntry { name: "a".to_string(), dtype: "U32".to_string(), shape: vec![1], data: &[1] },
        TensorEntry { name: "b".to_string(), dtype: "F4".to_string(), shape: vec![], data: &[2] },
    ];
    assert_eq!(
        tensors_from_entries(entries),
        vec![
            tensor("a", Dtype::U32, vec![1], &[1]),
            tensor("b", Dtype::Other("F4".to_string()), vec![], &[2]),
        ]
    );
}

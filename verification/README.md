# safetensors_to_onnx

Converts a safetensors checkpoint of a decoder-only language model into an ONNX
model whose weights live in an external data file. Rotary position embedding
and attention are placeholders in the emitted graph: queries, keys and values
pass through.

The program takes the path of the checkpoint:

    safetensors_to_onnx path/to/model.safetensors

It reads `config.json` from the directory of the checkpoint and writes
`model.onnx` and `model.onnx_data` there.

## Layout

- `src/` is the library, verified with Verus.
  - `onnx` holds the messages of the model format, `builders` makes them.
  - `decimal` and `names` make the names of tensors.
  - `layers` emits a transformer block, `model` a whole decoder.
  - `semantics` says what a graph computes, `laws` what every decoder graph
    computes and how it is built.
  - `checkpoint` reads the tensors of a checkpoint, `dtype` maps their element
    types, `external` lays them out in the data file and proves that each can
    be read back.
  - `error` names what can go wrong.
- `app/` is the program around the library: arguments, files, JSON and the
  protobuf encoding.
- `tests/` runs the library.

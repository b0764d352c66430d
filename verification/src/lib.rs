//! Converts safetensors checkpoints of decoder-only language models into ONNX
//! models whose weights live in an external data file.
//!
//! The library holds everything that is computed: the element types, the
//! layout of the external data file, the operator graph and the model around
//! it. Reading and writing files is left to the program that uses it.

pub mod builders;
pub mod checkpoint;
pub mod decimal;
pub mod dtype;
pub mod error;
pub mod external;
pub mod laws;
pub mod layers;
pub mod model;
pub mod names;
pub mod onnx;
pub mod semantics;

//! The plain values that cross the engine's boundary.

use vstd::prelude::*;

verus! {

/// The two failures that cross the engine boundary.
#[derive(Clone, Copy, Debug, PartialEq, Eq, Structural)]
pub enum Error {
    /// The model was offered in an interchange format that the engine does not read.
    InvalidEncoding,
    /// Every other failure: an unknown handle, a malformed buffer, a step out of
    /// turn, a poisoned lock, or a refusal by the graph engine.
    RuntimeError,
}

/// The interchange format of a trained model.
#[derive(Clone, Copy, Debug, PartialEq, Eq, Structural)]
pub enum GraphEncoding {
    Openvino,
    Onnx,
    Tensorflow,
}

/// The device a caller would like the model to run on. It is accepted and has
/// no effect.
#[derive(Clone, Copy, Debug, PartialEq, Eq, Structural)]
pub enum ExecutionTarget {
    Cpu,
    Gpu,
    Tpu,
}

/// The element type of a tensor.
#[derive(Clone, Copy, Debug, PartialEq, Eq, Structural)]
pub enum TensorType {
    Fp16,
    Fp32,
    Up8,
    Ip32,
}

/// A tensor as a caller hands it in: its shape, its element type and its
/// elements as raw bytes.
#[derive(Clone, Debug)]
pub struct TensorParam {
    pub dimensions: Vec<u32>,
    pub tensor_type: TensorType,
    pub data: Vec<u8>,
}

/// A tensor as the engine hands it out.
#[derive(Clone, Debug)]
pub struct TensorResult {
    pub dimensions: Vec<u32>,
    pub tensor_type: TensorType,
    pub data: Vec<u8>,
}

} // verus!

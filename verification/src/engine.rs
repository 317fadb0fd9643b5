//! The boundary to the graph engine.
//!
//! The engine parses a model, takes the shape of each input, compiles the graph
//! and runs it. Of these only the declaring of a shape is done here, with the
//! making and reading of tensors. None of it is proved: this module says what
//! the rest of the library relies on, and nothing else in the library touches
//! the engine.
//!
//! Parsing and running are not done here. The engine may end abnormally on
//! bytes that are no sound model, and on a graph that is not sound, and
//! nothing in this library can stop that. So the caller makes those two calls,
//! where it can guard them: it hands in a function that parses the bytes put
//! to it, and one that runs the engine on the question put to it.
//!
//! A tensor of the engine is kept as it is. What the library reads of it has
//! names: its shape, `tensor_dims`, the bit patterns of its elements,
//! `tensor_bits`, and whether it holds 32-bit floats, `tensor_is_fp32`.
//!
//! What a declaration makes of a graph, and the tensor that is made of a shape
//! and words, depend on nothing else, and have names too: `shaped` and
//! `tensor_of`.

use vstd::prelude::*;

verus! {

/// A tensor of the graph engine.
#[verifier::external_type_specification]
#[verifier::external_body]
pub struct ExTensor(tract_onnx::prelude::Tensor);

/// The error that the graph engine reports.
#[verifier::external_type_specification]
#[verifier::external_body]
pub struct ExEngineError(tract_onnx::prelude::TractError);

/// A parsed computation graph of the engine, whose inputs' shapes may still be
/// declared. It is made of what the engine's parser gave: `TractGraph { model }`.
///
/// The engine's graph takes its operations as trait objects, which cannot be
/// declared to the verifier. So nothing of the graph is visible here but what
/// `graph_inputs` and `graph_nodes` name.
#[verifier::external_body]
pub struct TractGraph {
    pub model: tract_onnx::prelude::InferenceModel,
}

/// The shape of a tensor: the size of each dimension, outermost first.
pub uninterp spec fn tensor_dims(tensor: tract_onnx::prelude::Tensor) -> Seq<usize>;

/// The elements of a tensor of 32-bit floats, each as its bit pattern, in
/// row-major order.
pub uninterp spec fn tensor_bits(tensor: tract_onnx::prelude::Tensor) -> Seq<u32>;

/// The input slots of a graph, each as the node and the output of that node
/// that feeds it.
pub uninterp spec fn graph_inputs(graph: TractGraph) -> Seq<(usize, usize)>;

/// The nodes of a graph, each as the number of its outputs.
pub uninterp spec fn graph_nodes(graph: TractGraph) -> Seq<nat>;

/// The graph after input slot `index` was declared to hold 32-bit floats in the
/// given shape, or `None` where the graph refuses the declaration.
pub uninterp spec fn shaped(graph: TractGraph, index: usize, shape: Seq<usize>) -> Option<TractGraph>;

/// The tensor of 32-bit floats that has the given shape and whose elements
/// have the given bit patterns, in row-major order.
pub uninterp spec fn tensor_of(shape: Seq<usize>, words: Seq<u32>) -> tract_onnx::prelude::Tensor;

/// Whether a tensor holds 32-bit floats that can be read.
pub uninterp spec fn tensor_is_fp32(tensor: tract_onnx::prelude::Tensor) -> bool;

/// The number of elements that a shape holds: the product of its dimensions.
pub open spec fn volume(shape: Seq<usize>) -> nat
    decreases shape.len(),
{
    if shape.len() == 0 {
        1
    } else {
        (volume(shape.drop_last()) * shape.last()) as nat
    }
}

/// The product of those dimensions of a shape that are not zero.
pub open spec fn nonzero_volume(shape: Seq<usize>) -> nat
    decreases shape.len(),
{
    if shape.len() == 0 {
        1
    } else if shape.last() == 0 {
        nonzero_volume(shape.drop_last())
    } else {
        (nonzero_volume(shape.drop_last()) * shape.last()) as nat
    }
}

/// The length of `Graph::inputs`: the number of input slots of the graph.
#[verifier::external_body]
fn graph_input_count(graph: &TractGraph) -> (count: usize)
    ensures
        count == graph_inputs(*graph).len(),
{
    graph.model.inputs.len()
}

/// The length of `Graph::nodes`: the number of nodes of the graph.
#[verifier::external_body]
fn graph_node_count(graph: &TractGraph) -> (count: usize)
    ensures
        count == graph_nodes(*graph).len(),
{
    graph.model.nodes.len()
}

/// An element of `Graph::inputs`: the node that feeds input slot `index`. The
/// slot must exist.
#[verifier::external_body]
fn graph_input_node(graph: &TractGraph, index: usize) -> (node: usize)
    requires
        index < graph_inputs(*graph).len(),
    ensures
        node == graph_inputs(*graph)[index as int].0,
{
    graph.model.inputs[index].node
}

/// Whether a graph has input slot `index` and the node that feeds it.
pub open spec fn slot_known(graph: TractGraph, index: int) -> bool {
    0 <= index < graph_inputs(graph).len() && graph_inputs(graph)[index].0 < graph_nodes(graph).len()
}

/// `Graph::set_input_fact` with `InferenceFact::dt_shape`: declares input slot
/// `index` to hold 32-bit floats in the given shape. The slot must exist, and
/// so must the node that feeds it: the engine looks up both without a test.
/// The graph that comes of it is what `shaped` names. The input slots and the
/// nodes stay as they were, and a graph that refuses is left untouched.
#[verifier::external_body]
pub(crate) fn declare_input_shape(graph: &mut TractGraph, index: usize, shape: &Vec<usize>) -> (r: Result<
    (),
    tract_onnx::prelude::TractError,
>)
    requires
        slot_known(*old(graph), index as int),
    ensures
        r is Ok <==> shaped(*old(graph), index, shape@) is Some,
        r is Ok ==> *final(graph) == shaped(*old(graph), index, shape@)->Some_0,
        r is Err ==> *final(graph) == *old(graph),
        graph_inputs(*final(graph)) == graph_inputs(*old(graph)),
        graph_nodes(*final(graph)) == graph_nodes(*old(graph)),
{
    let fact = tract_onnx::prelude::InferenceFact::dt_shape(
        tract_onnx::prelude::DatumType::F32,
        shape.clone(),
    );
    graph.model.set_input_fact(index, fact)
}

/// `Array::from_shape_vec`, `Tensor::zero_dt` and `Tensor::as_bytes_mut`: a
/// tensor of 32-bit floats with the given shape, whose elements have the given
/// bit patterns: the tensor that `tensor_of` names.
///
/// The array refuses a shape that does not hold as many elements as are given,
/// and one whose non-zero dimensions multiply to more than `isize::MAX`. The
/// tensor refuses a shape whose bytes it cannot count without overflow, which
/// cannot happen while four times the product of the non-zero dimensions is
/// within `isize::MAX`. So the first two are needed for a tensor, and with the
/// third in place of the second a tensor is owed.
#[verifier::external_body]
pub(crate) fn make_tensor(shape: &Vec<usize>, words: &Vec<u32>) -> (r: Result<
    tract_onnx::prelude::Tensor,
    tract_onnx::prelude::TractError,
>)
    ensures
        r is Ok ==> volume(shape@) == words@.len() && nonzero_volume(shape@) <= isize::MAX,
        r is Ok ==> r->Ok_0 == tensor_of(shape@, words@),
        r is Ok ==> tensor_dims(r->Ok_0) == shape@ && tensor_bits(r->Ok_0) == words@,
        r is Err ==> volume(shape@) != words@.len() || 4 * nonzero_volume(shape@) > isize::MAX,
{
    let dim = tract_onnx::prelude::tract_ndarray::IxDyn(shape);
    let array = tract_onnx::prelude::tract_ndarray::Array::from_shape_vec(dim, words.clone())?;
    let kind = tract_onnx::prelude::DatumType::F32;
    let mut tensor = tract_onnx::prelude::Tensor::zero_dt(kind, array.shape())?;
    let raw: Vec<u8> = array.iter().flat_map(|w| w.to_ne_bytes()).collect();
    tensor.as_bytes_mut().copy_from_slice(&raw);
    Ok(tensor)
}

/// `Tensor::shape`: the shape of a tensor.
#[verifier::external_body]
pub(crate) fn tensor_shape(tensor: &tract_onnx::prelude::Tensor) -> (dims: Vec<usize>)
    ensures
        dims@ == tensor_dims(*tensor),
{
    tensor.shape().to_vec()
}

/// `Tensor::try_as_plain_ram`, `datum_type` and `as_bytes`: the elements of a
/// tensor of 32-bit floats, each as its bit pattern. A tensor of another element
/// type, or one whose elements cannot be reached, gives `None`: those are the
/// tensors of which `tensor_is_fp32` is false.
#[verifier::external_body]
pub(crate) fn tensor_words(tensor: &tract_onnx::prelude::Tensor) -> (r: Option<Vec<u32>>)
    ensures
        r is Some <==> tensor_is_fp32(*tensor),
        r is Some ==> r->Some_0@ == tensor_bits(*tensor),
{
    let view = tensor.try_as_plain_ram().ok()?;
    match view.datum_type() {
        tract_onnx::prelude::DatumType::F32 => Some(
            view.as_bytes().chunks_exact(4).map(|c| u32::from_ne_bytes([c[0], c[1], c[2], c[3]])).collect(),
        ),
        _ => None,
    }
}

impl TractGraph {
    /// The number of input slots of the graph.
    pub fn input_count(&self) -> (count: usize)
        ensures
            count == graph_inputs(*self).len(),
    {
        graph_input_count(self)
    }

    /// Whether the graph has input slot `index` and the node that feeds it.
    pub fn knows_slot(&self, index: usize) -> (known: bool)
        ensures
            known == slot_known(*self, index as int),
    {
        if index < graph_input_count(self) {
            graph_input_node(self, index) < graph_node_count(self)
        } else {
            false
        }
    }
}

} // verus!

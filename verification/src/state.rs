//! The registry: the loaded models and the execution contexts, each under a
//! handle, and the five operations of the engine on them. To parse and to run
//! the graph engine is not called here: the caller hands in what does that.
//! Nothing is ever removed. A handle is the place of its entry, so the handles
//! of a namespace are 0, 1, 2, ... in the order of issue, and the next one is
//! one more than the greatest in use.

use vstd::prelude::*;
use crate::bytes::{bytes_to_floats, decoded, encoded, floats_to_bytes, ByteOrder};
use crate::engine::{
    graph_inputs, graph_nodes, make_tensor, nonzero_volume, shaped, slot_known, tensor_bits,
    tensor_dims, tensor_is_fp32, tensor_of, tensor_shape, tensor_words, volume, TractGraph,
};
use crate::session::{answer_of, Phase, Question, SessionView, TractSession};
use crate::wasi_nn::{Error, ExecutionTarget, GraphEncoding, TensorParam, TensorResult, TensorType};
use tract_onnx::prelude::{Tensor, TractError};

verus! {

/// The models and the execution contexts of one engine.
pub struct State {
    /// The sessions, each at the place of its execution-context handle.
    pub executions: Vec<TractSession>,
    /// The bytes of the loaded models, each at the place of its model handle.
    pub models: Vec<Vec<u8>>,
    /// The byte order in which tensors cross the boundary.
    pub order: ByteOrder,
}

/// What a registry holds, as the contracts speak of it.
pub struct StateView {
    pub executions: Seq<SessionView>,
    pub models: Seq<Seq<u8>>,
    pub order: ByteOrder,
}

/// The handles issued in a namespace that holds `count` entries.
pub open spec fn handles(count: nat) -> Set<u32> {
    Set::new(|h: u32| (h as nat) < count)
}

/// The handle that follows the greatest in use, if one is left.
pub open spec fn following(greatest: Option<u32>) -> Option<u32> {
    match greatest {
        None => Some(0u32),
        Some(last) => if last < u32::MAX {
            Some((last + 1) as u32)
        } else {
            None
        },
    }
}

/// The greatest handle of a namespace of `count` entries, if it has any.
pub open spec fn greatest_of(count: nat) -> Option<u32> {
    if count == 0 {
        None
    } else if count - 1 < u32::MAX {
        Some((count - 1) as u32)
    } else {
        Some(u32::MAX)
    }
}

/// A shape given in 32-bit sizes, as the engine takes it.
pub open spec fn widened(dimensions: Seq<u32>) -> Seq<usize> {
    Seq::new(dimensions.len(), |i: int| dimensions[i] as usize)
}

/// A shape of the engine, as it is reported: each size cut to 32 bits.
pub open spec fn narrowed(dims: Seq<usize>) -> Seq<u32> {
    Seq::new(dims.len(), |i: int| dims[i] as u32)
}

impl StateView {
    /// Whether `handle` stands for a loaded model.
    pub open spec fn has_model(self, handle: u32) -> bool {
        (handle as int) < self.models.len()
    }

    /// Whether `handle` stands for a session.
    pub open spec fn has_session(self, handle: u32) -> bool {
        (handle as int) < self.executions.len()
    }

    /// The loaded models by handle.
    pub open spec fn model_map(self) -> Map<u32, Seq<u8>> {
        Map::new(|h: u32| self.has_model(h), |h: u32| self.models[h as int])
    }

    /// The sessions by handle.
    pub open spec fn session_map(self) -> Map<u32, SessionView> {
        Map::new(|h: u32| self.has_session(h), |h: u32| self.executions[h as int])
    }

    /// The registry with one more model.
    pub open spec fn with_model(self, bytes: Seq<u8>) -> StateView {
        StateView { models: self.models.push(bytes), ..self }
    }

    /// The registry with one more session.
    pub open spec fn with_session(self, session: SessionView) -> StateView {
        StateView { executions: self.executions.push(session), ..self }
    }

    /// The registry with the session under `ctx` replaced.
    pub open spec fn with_session_at(self, ctx: u32, session: SessionView) -> StateView {
        StateView { executions: self.executions.update(ctx as int, session), ..self }
    }
}

impl View for State {
    type V = StateView;

    open spec fn view(&self) -> StateView {
        StateView {
            executions: Seq::new(self.executions@.len(), |i: int| self.executions@[i]@),
            models: Seq::new(self.models@.len(), |i: int| self.models@[i]@),
            order: self.order,
        }
    }
}

impl Default for State {
    /// An empty registry in the byte order of the machine.
    fn default() -> (state: State)
        ensures
            state@.models.len() == 0,
            state@.executions.len() == 0,
    {
        State::new()
    }
}

impl State {
    /// What `load` answers and leaves behind.
    pub open spec fn loaded(pre: StateView, bytes: Seq<u8>, encoding: GraphEncoding, post: StateView, r: Result<
        u32,
        Error,
    >) -> bool {
        if encoding != GraphEncoding::Onnx {
            r == Err::<u32, Error>(Error::InvalidEncoding) && post == pre
        } else if pre.models.len() > u32::MAX {
            r == Err::<u32, Error>(Error::RuntimeError) && post == pre
        } else {
            r == Ok::<u32, Error>(pre.models.len() as u32) && post == pre.with_model(bytes)
        }
    }

    /// What `open_session` answers and leaves behind.
    pub open spec fn session_opened(pre: StateView, graph: TractGraph, post: StateView, r: Result<
        u32,
        Error,
    >) -> bool {
        if pre.executions.len() > u32::MAX {
            r == Err::<u32, Error>(Error::RuntimeError) && post == pre
        } else {
            &&& r == Ok::<u32, Error>(pre.executions.len() as u32)
            &&& post == pre.with_session(SessionView { graph, inputs: None, outputs: None })
        }
    }

    /// What `init_execution_context` answers and leaves behind: a session on the
    /// graph that the parser made of the model's bytes. Without such a model, or
    /// without a graph, the answer is `RuntimeError` and nothing changes.
    pub open spec fn context_opened(pre: StateView, model: u32, parsed: Option<TractGraph>, post: StateView, r: Result<
        u32,
        Error,
    >) -> bool {
        if pre.has_model(model) && parsed is Some {
            Self::session_opened(pre, parsed->Some_0, post, r)
        } else {
            r == Err::<u32, Error>(Error::RuntimeError) && post == pre
        }
    }

    /// Whether the graph of the session under `ctx` has input slot `index` with
    /// its node, and takes the declaration of the given shape for it.
    pub open spec fn shape_taken(pre: StateView, ctx: u32, index: u32, dimensions: Seq<u32>) -> bool {
        let graph = pre.executions[ctx as int].graph;
        slot_known(graph, index as int) && shaped(graph, index as usize, widened(dimensions)) is Some
    }

    /// What `set_input` answers and leaves behind.
    ///
    /// It succeeds only if the input is not refused and the graph takes the
    /// shape, and it does succeed then, as long as four times the product of the
    /// shape's non-zero sizes is within `isize::MAX` (which it is for every
    /// shape that holds at least one element). On success the session's graph is
    /// the one with the shape declared, and a tensor of that shape with the
    /// decoded words is its last input. A refusal is `RuntimeError` and changes
    /// nothing.
    pub open spec fn input_set(pre: StateView, ctx: u32, index: u32, dimensions: Seq<u32>, data: Seq<u8>, post: StateView, r: Result<
        (),
        Error,
    >) -> bool {
        let before = pre.executions[ctx as int];
        let after = post.executions[ctx as int];
        let shape = widened(dimensions);
        &&& r is Ok ==> {
            &&& !Self::input_refused(pre, ctx, dimensions, data)
            &&& Self::shape_taken(pre, ctx, index, dimensions)
            &&& post == pre.with_session_at(ctx, after)
            &&& after.graph == shaped(before.graph, index as usize, shape)->Some_0
            &&& graph_inputs(after.graph) == graph_inputs(before.graph)
            &&& graph_nodes(after.graph) == graph_nodes(before.graph)
            &&& after.outputs == before.outputs
            &&& after.inputs == Some(before.bound().push(tensor_of(shape, decoded(pre.order, data))))
            &&& tensor_dims(after.bound().last()) == shape
            &&& tensor_bits(after.bound().last()) == decoded(pre.order, data)
        }
        &&& r is Err ==> r == Err::<(), Error>(Error::RuntimeError) && post == pre
        &&& !Self::input_refused(pre, ctx, dimensions, data) && Self::shape_taken(pre, ctx, index, dimensions)
            && 4 * nonzero_volume(shape) <= isize::MAX ==> r is Ok
    }

    /// An empty registry in the byte order of the machine, as
    /// `ByteOrder::native` finds it.
    pub fn new() -> (state: State)
        ensures
            state@.models.len() == 0,
            state@.executions.len() == 0,
    {
        State::with_order(ByteOrder::native())
    }

    /// An empty registry in a given byte order.
    pub fn with_order(order: ByteOrder) -> (state: State)
        ensures
            state@.models.len() == 0,
            state@.executions.len() == 0,
            state@.order == order,
    {
        State { executions: Vec::new(), models: Vec::new(), order }
    }

    /// The handle that follows the greatest in use: one more than it, and 0
    /// where none is in use. No handle is left once the greatest of all is in
    /// use.
    pub fn after(greatest: Option<u32>) -> (next: Option<u32>)
        ensures
            next == following(greatest),
    {
        match greatest {
            None => Some(0),
            Some(last) => {
                if last < u32::MAX {
                    Some(last + 1)
                } else {
                    None
                }
            },
        }
    }

    /// The greatest handle of a namespace that holds `count` entries under the
    /// handles 0, 1, 2, ..., if it holds any.
    pub fn greatest_handle(count: usize) -> (greatest: Option<u32>)
        ensures
            greatest == greatest_of(count as nat),
    {
        if count == 0 {
            None
        } else if count - 1 < u32::MAX as usize {
            Some((count - 1) as u32)
        } else {
            Some(u32::MAX)
        }
    }

    /// The handle to issue next in a namespace with the given keys, in any
    /// order: one more than the greatest of them, and 0 where there is none. No
    /// handle is left once the greatest key of all is among them.
    pub fn key(keys: &Vec<u32>) -> (next: Option<u32>)
        ensures
            next is None <==> keys@.contains(u32::MAX),
            next is Some ==> forall|i: int| 0 <= i < keys@.len() ==> keys@[i] < next->Some_0,
            next is Some && keys@.len() == 0 ==> next->Some_0 == 0,
            next is Some && keys@.len() > 0 ==> keys@.contains((next->Some_0 - 1) as u32),
    {
        let mut greatest: Option<u32> = None;
        let mut i: usize = 0;
        while i < keys.len()
            invariant
                i <= keys@.len(),
                greatest is None <==> i == 0,
                forall|k: int| 0 <= k < i ==> keys@[k] <= greatest->Some_0,
                greatest is Some ==> exists|k: int| 0 <= k < i && keys@[k] == greatest->Some_0,
            decreases keys@.len() - i,
        {
            let key: u32 = keys[i];
            greatest = match greatest {
                Some(last) => {
                    if key > last {
                        Some(key)
                    } else {
                        Some(last)
                    }
                },
                None => Some(key),
            };
            i = i + 1;
        }
        Self::after(greatest)
    }

    /// Stores the bytes of a model under a fresh handle.
    ///
    /// Only the ONNX encoding is taken: any other is refused with
    /// `InvalidEncoding`, and the registry is not touched. The bytes are not
    /// parsed here. The target has no effect.
    pub fn load(&mut self, model_bytes: Vec<u8>, encoding: GraphEncoding, target: ExecutionTarget) -> (r: Result<
        u32,
        Error,
    >)
        ensures
            Self::loaded(old(self)@, model_bytes@, encoding, final(self)@, r),
    {
        match encoding {
            GraphEncoding::Onnx => {},
            _ => {
                return Err(Error::InvalidEncoding);
            },
        }
        match Self::after(Self::greatest_handle(self.models.len())) {
            Some(graph) => {
                self.models.push(model_bytes);
                assert(self@.models =~= old(self)@.models.push(model_bytes@));
                Ok(graph)
            },
            None => Err(Error::RuntimeError),
        }
    }

    /// The bytes of the model under `graph`, if there is one.
    pub fn get_model(&self, graph: u32) -> (r: Option<&Vec<u8>>)
        ensures
            r is Some <==> self@.has_model(graph),
            r is Some ==> r->Some_0@ == self@.models[graph as int],
    {
        let at: usize = graph as usize;
        if at < self.models.len() {
            Some(&self.models[at])
        } else {
            None
        }
    }

    /// The session under `ctx`, if there is one.
    pub fn get_session(&self, ctx: u32) -> (r: Option<&TractSession>)
        ensures
            r is Some <==> self@.has_session(ctx),
            r is Some ==> r->Some_0@ == self@.executions[ctx as int],
    {
        let at: usize = ctx as usize;
        if at < self.executions.len() {
            Some(&self.executions[at])
        } else {
            None
        }
    }

    /// The session under `ctx`, if there is one, to be changed in place: what the
    /// caller leaves in it is what the registry then holds under `ctx`, and
    /// nothing else changes.
    pub fn get_session_mut(&mut self, ctx: u32) -> (r: Option<&mut TractSession>)
        ensures
            r is Some <==> old(self)@.has_session(ctx),
            r is Some ==> *r->Some_0 == old(self).executions@[ctx as int],
            r is Some ==> final(self)@ == old(self)@.with_session_at(ctx, (*final(r->Some_0))@),
            r is None ==> final(self)@ == old(self)@,
    {
        let at: usize = ctx as usize;
        if at < self.executions.len() {
            let session: &mut TractSession = &mut self.executions[at];
            proof {
                assert(after_borrow(self)@.executions =~= old(self)@.executions.update(
                    ctx as int,
                    (*final(session))@,
                ));
            }
            Some(session)
        } else {
            None
        }
    }

    /// Puts a new session on `graph` under a fresh execution-context handle. The
    /// session has no list of inputs and no outputs.
    pub fn open_session(&mut self, graph: TractGraph) -> (r: Result<u32, Error>)
        ensures
            Self::session_opened(old(self)@, graph, final(self)@, r),
    {
        match Self::after(Self::greatest_handle(self.executions.len())) {
            Some(ctx) => {
                self.executions.push(TractSession::with_graph(graph));
                assert(self@.executions =~= old(self)@.executions.push(
                    SessionView { graph, inputs: None, outputs: None },
                ));
                Ok(ctx)
            },
            None => Err(Error::RuntimeError),
        }
    }

    /// Opens a session on the model under `graph` with the parser given: the
    /// parser is handed the bytes of that model, once, and the session is on the
    /// graph that it makes of them.
    ///
    /// The parser is not part of this library: it may end abnormally on bytes
    /// that are no sound model, so the caller brings it, guarded.
    ///
    /// A handle that `load` never issued is refused with `RuntimeError` before
    /// the parser is asked. After it, a model of which the parser made no graph,
    /// and a namespace with no handle left; nothing else is. A refusal leaves
    /// the registry as it was. Otherwise the new session is on the graph made,
    /// has no list of inputs and no outputs, and its handle is the next of its
    /// namespace.
    pub fn init_execution_context<P>(&mut self, graph: u32, parser: P) -> (r: Result<u32, Error>) where
        P: FnOnce(&Vec<u8>) -> Option<TractGraph>,

        requires
            forall|bytes: &Vec<u8>| #[trigger] parser.requires((bytes,)),
        ensures
            !old(self)@.has_model(graph) ==> r == Err::<u32, Error>(Error::RuntimeError) && final(self)@
                == old(self)@,
            old(self)@.has_model(graph) ==> exists|bytes: &Vec<u8>, parsed: Option<TractGraph>|
                {
                    &&& bytes@ == old(self)@.models[graph as int]
                    &&& #[trigger] parser.ensures((bytes,), parsed)
                    &&& Self::context_opened(old(self)@, graph, parsed, final(self)@, r)
                },
    {
        let parsed: Option<TractGraph> = match self.get_model(graph) {
            Some(bytes) => parser(bytes),
            None => {
                return Err(Error::RuntimeError);
            },
        };
        match parsed {
            Some(model) => self.open_session(model),
            None => Err(Error::RuntimeError),
        }
    }

    /// Binds one more input to the session under `ctx`.
    ///
    /// The data are read as 32-bit floats in the registry's byte order, whatever
    /// element type the tensor names. A tensor of the given shape is made of
    /// them, the shape is declared to the engine for input slot `index`, and the
    /// tensor is put after the inputs bound before: the place of an input is the
    /// turn of its call, not `index`.
    ///
    /// Refused with `RuntimeError`, the registry staying as it was: an unknown
    /// handle, data whose length is no multiple of four, a shape that does not
    /// hold as many elements as the data give, a slot that the graph does not
    /// have, and a shape that the engine refuses.
    pub fn set_input(&mut self, ctx: u32, index: u32, tensor: &TensorParam) -> (r: Result<(), Error>)
        ensures
            Self::input_set(old(self)@, ctx, index, tensor.dimensions@, tensor.data@, final(self)@, r),
    {
        let order: ByteOrder = self.order;
        let session: &mut TractSession = match self.get_session_mut(ctx) {
            Some(session) => session,
            None => {
                return Err(Error::RuntimeError);
            },
        };
        let ghost before = *session;
        let words: Vec<u32> = match bytes_to_floats(&tensor.data, order) {
            Ok(words) => words,
            Err(e) => {
                assert(self@.executions =~= old(self)@.executions);
                return Err(e);
            },
        };
        let shape: Vec<usize> = widen(&tensor.dimensions);
        let input: Tensor = match make_tensor(&shape, &words) {
            Ok(input) => input,
            Err(_) => {
                assert(self@.executions =~= old(self)@.executions);
                return Err(Error::RuntimeError);
            },
        };
        match session.set_input(index, &shape, input) {
            Ok(()) => {
                proof {
                    let after = self@.executions[ctx as int];
                    assert(after.bound() =~= before@.bound().push(input));
                }
                Ok(())
            },
            Err(e) => {
                assert(self@.executions =~= old(self)@.executions);
                Err(e)
            },
        }
    }

    /// What the engine is to be asked about the session under `ctx`: see
    /// `TractSession::question`.
    ///
    /// Refused with `RuntimeError`: an unknown handle, and a session that has
    /// outputs already. Nothing else is.
    pub fn question<'a>(&'a self, ctx: u32) -> (r: Result<Question<'a>, Error>)
        ensures
            Self::asked(self@, ctx, r),
    {
        match self.get_session(ctx) {
            Some(session) => session.question(),
            None => Err(Error::RuntimeError),
        }
    }

    /// Computes the session under `ctx` with the engine given: the engine is
    /// asked the session's question, once, and its answer is taken as `compute`
    /// says.
    ///
    /// The engine is not part of this library: it may end abnormally on a graph
    /// that is not sound, so the caller brings it, guarded.
    ///
    /// Refused with `RuntimeError` before the engine is asked, the registry
    /// staying as it was: an unknown handle, and a session that has outputs
    /// already. After it, what the engine refused.
    pub fn compute_with<F>(&mut self, ctx: u32, engine: F) -> (r: Result<(), Error>) where
        F: FnOnce(Question) -> Result<Vec<Tensor>, TractError>,

        requires
            forall|question: Question| #[trigger] engine.requires((question,)),
        ensures
            !(old(self)@.has_session(ctx) && old(self)@.executions[ctx as int].outputs is None) ==> r
                == Err::<(), Error>(Error::RuntimeError) && final(self)@ == old(self)@,
            old(self)@.has_session(ctx) && old(self)@.executions[ctx as int].outputs is None
                ==> exists|question: Question, outcome: Result<Vec<Tensor>, TractError>|
                {
                    &&& Self::asked(old(self)@, ctx, Ok(question))
                    &&& #[trigger] engine.ensures((question,), outcome)
                    &&& Self::computed(old(self)@, ctx, answer_of(outcome), final(self)@, r)
                },
    {
        let outcome = match self.question(ctx) {
            Ok(question) => engine(question),
            Err(e) => {
                return Err(e);
            },
        };
        self.compute(ctx, outcome)
    }

    /// Computes the session under `ctx`, given what the engine answered to the
    /// session's question.
    ///
    /// The engine is not run here: see `compute_with`, which asks the engine
    /// given and hands its answer to this function.
    ///
    /// Refused with `RuntimeError`, the registry staying as it was: an unknown
    /// handle, a session that has outputs already, and what the engine refused.
    /// Nothing else is. Otherwise the session has the engine's outputs, and
    /// nothing else changed.
    pub fn compute(&mut self, ctx: u32, outcome: Result<Vec<Tensor>, TractError>) -> (r: Result<(), Error>)
        ensures
            Self::computed(old(self)@, ctx, answer_of(outcome), final(self)@, r),
    {
        let session: &mut TractSession = match self.get_session_mut(ctx) {
            Some(session) => session,
            None => {
                return Err(Error::RuntimeError);
            },
        };
        let r = session.store_outputs(outcome);
        proof {
            if r is Err {
                assert(self@.executions =~= old(self)@.executions);
            }
        }
        r
    }

    /// Output `index` of the session under `ctx`: its shape, the element type,
    /// which is always `Fp32`, and its elements as bytes in the registry's byte
    /// order.
    ///
    /// Refused with `RuntimeError`: an unknown handle, a session that was not
    /// computed, an index past the last output, and an output that does not hold
    /// 32-bit floats.
    pub fn get_output(&self, ctx: u32, index: u32) -> (r: Result<TensorResult, Error>)
        ensures
            Self::output_read(self@, ctx, index, r),
    {
        let session: &TractSession = match self.get_session(ctx) {
            Some(session) => session,
            None => {
                return Err(Error::RuntimeError);
            },
        };
        let output: &Tensor = match session.read_output(index) {
            Ok(output) => output,
            Err(e) => {
                return Err(e);
            },
        };
        let dims: Vec<usize> = tensor_shape(output);
        let words: Option<Vec<u32>> = tensor_words(output);
        tensor_result(&dims, words, self.order)
    }
}

impl State {
    /// What `question` answers: what the engine is to be asked about the session
    /// under `ctx`, its graph and its inputs in the order in which they were
    /// bound (none, where the list is absent). Without such a session, or with
    /// one that has outputs already, the answer is `RuntimeError`.
    pub open spec fn asked(state: StateView, ctx: u32, r: Result<Question, Error>) -> bool {
        let session = state.executions[ctx as int];
        if state.has_session(ctx) && session.outputs is None {
            &&& r is Ok
            &&& *r->Ok_0.graph == session.graph
            &&& r->Ok_0.bound() == session.bound()
            &&& r->Ok_0.inputs is Some <==> session.inputs is Some
        } else {
            r is Err && r->Err_0 == Error::RuntimeError
        }
    }

    /// What `compute` answers and leaves behind, given what the engine answered.
    ///
    /// Without such a session, or with one that has outputs already, the answer
    /// is `RuntimeError`, and so it is where the engine refused. Otherwise the
    /// engine's outputs become the session's. Nothing else changes, and a
    /// refusal changes nothing.
    pub open spec fn computed(pre: StateView, ctx: u32, answer: Option<Seq<Tensor>>, post: StateView, r: Result<
        (),
        Error,
    >) -> bool {
        let before = pre.executions[ctx as int];
        if pre.has_session(ctx) && before.outputs is None && answer is Some {
            &&& r is Ok
            &&& post == pre.with_session_at(
                ctx,
                SessionView { graph: before.graph, inputs: before.inputs, outputs: answer },
            )
        } else {
            r == Err::<(), Error>(Error::RuntimeError) && post == pre
        }
    }

    /// Whether `set_input` is refused by what the caller hands in, whatever the
    /// graph: an unknown handle, data whose length is no multiple of four, a
    /// shape that does not hold as many elements as the data give, or a shape
    /// whose non-zero sizes multiply to more than `isize::MAX`.
    pub open spec fn input_refused(pre: StateView, ctx: u32, dimensions: Seq<u32>, data: Seq<u8>) -> bool {
        ||| !pre.has_session(ctx)
        ||| data.len() % 4 != 0
        ||| volume(widened(dimensions)) != data.len() / 4
        ||| nonzero_volume(widened(dimensions)) > isize::MAX
    }

    /// Whether output `index` of the session under `ctx` can be asked for.
    pub open spec fn output_ready(state: StateView, ctx: u32, index: u32) -> bool {
        &&& state.has_session(ctx)
        &&& state.executions[ctx as int].outputs is Some
        &&& index < state.executions[ctx as int].outputs->Some_0.len()
    }

    /// What `get_output` answers: the output asked for, if it is there and holds
    /// 32-bit floats, and `RuntimeError` otherwise.
    pub open spec fn output_read(state: StateView, ctx: u32, index: u32, r: Result<TensorResult, Error>) -> bool {
        let output = state.executions[ctx as int].outputs->Some_0[index as int];
        if Self::output_ready(state, ctx, index) && tensor_is_fp32(output) {
            &&& r is Ok
            &&& r->Ok_0.dimensions@ == narrowed(tensor_dims(output))
            &&& r->Ok_0.tensor_type == TensorType::Fp32
            &&& r->Ok_0.data@ == encoded(state.order, tensor_bits(output))
        } else {
            r is Err && r->Err_0 == Error::RuntimeError
        }
    }
}

/// A shape given in 32-bit sizes, as the engine takes it.
pub fn widen(dimensions: &Vec<u32>) -> (shape: Vec<usize>)
    ensures
        shape@ == widened(dimensions@),
{
    let mut shape: Vec<usize> = Vec::new();
    let mut i: usize = 0;
    while i < dimensions.len()
        invariant
            i <= dimensions@.len(),
            shape@.len() == i,
            forall|k: int| 0 <= k < i ==> shape@[k] == dimensions@[k] as usize,
        decreases dimensions@.len() - i,
    {
        shape.push(dimensions[i] as usize);
        i = i + 1;
    }
    shape
}

/// A shape of the engine, as it is reported: each size cut to its low 32 bits.
pub fn narrow(dims: &Vec<usize>) -> (dimensions: Vec<u32>)
    ensures
        dimensions@ == narrowed(dims@),
{
    let mut dimensions: Vec<u32> = Vec::new();
    let mut i: usize = 0;
    while i < dims.len()
        invariant
            i <= dims@.len(),
            dimensions@.len() == i,
            forall|k: int| 0 <= k < i ==> dimensions@[k] == dims@[k] as u32,
        decreases dims@.len() - i,
    {
        let size: usize = dims[i];
        dimensions.push(#[verifier::truncate] (size as u32));
        i = i + 1;
    }
    dimensions
}

/// The tensor that is handed out for an output with the given shape and
/// elements. An output whose elements could not be read as 32-bit floats is
/// refused with `RuntimeError`.
pub fn tensor_result(dims: &Vec<usize>, words: Option<Vec<u32>>, order: ByteOrder) -> (r: Result<
    TensorResult,
    Error,
>)
    ensures
        r is Ok <==> words is Some,
        r is Err ==> r->Err_0 == Error::RuntimeError,
        r is Ok ==> r->Ok_0.dimensions@ == narrowed(dims@),
        r is Ok ==> r->Ok_0.tensor_type == TensorType::Fp32,
        r is Ok ==> r->Ok_0.data@ == encoded(order, words->Some_0@),
{
    match words {
        Some(values) => Ok(
            TensorResult {
                dimensions: narrow(dims),
                tensor_type: TensorType::Fp32,
                data: floats_to_bytes(&values, order),
            },
        ),
        None => Err(Error::RuntimeError),
    }
}

impl StateView {
    /// Whether `later` holds all that `self` holds under the same handles: every
    /// model with its bytes, and a session for every session.
    pub open spec fn kept_by(self, later: StateView) -> bool {
        &&& later.order == self.order
        &&& self.models.len() <= later.models.len()
        &&& self.executions.len() <= later.executions.len()
        &&& forall|h: u32| self.has_model(h) ==> later.models[h as int] == self.models[h as int]
    }
}

/// Loading the same bytes twice in a row, in the ONNX encoding and with room
/// for two more models, gives two different handles, and each of them then
/// stands for those bytes.
pub proof fn lemma_load_twice(
    s0: StateView,
    s1: StateView,
    s2: StateView,
    bytes: Seq<u8>,
    first: Result<u32, Error>,
    second: Result<u32, Error>,
)
    requires
        s0.models.len() < u32::MAX,
        State::loaded(s0, bytes, GraphEncoding::Onnx, s1, first),
        State::loaded(s1, bytes, GraphEncoding::Onnx, s2, second),
    ensures
        first is Ok,
        second is Ok,
        first->Ok_0 != second->Ok_0,
        second->Ok_0 == first->Ok_0 + 1,
        s2.model_map().contains_pair(first->Ok_0, bytes),
        s2.model_map().contains_pair(second->Ok_0, bytes),
{
}

/// A handle that `load` gives out is new, greater than every handle in use, and
/// stands for the bytes that were loaded; the handles in use before stand for
/// what they stood for.
pub proof fn lemma_load_is_fresh(
    pre: StateView,
    bytes: Seq<u8>,
    encoding: GraphEncoding,
    post: StateView,
    r: Result<u32, Error>,
)
    requires
        State::loaded(pre, bytes, encoding, post, r),
        r is Ok,
    ensures
        encoding == GraphEncoding::Onnx,
        !pre.has_model(r->Ok_0),
        forall|h: u32| pre.has_model(h) ==> h < r->Ok_0,
        post.model_map() == pre.model_map().insert(r->Ok_0, bytes),
        post.session_map() == pre.session_map(),
{
}

/// A load in another encoding than ONNX is refused with `InvalidEncoding` and
/// leaves the registry as it was.
pub proof fn lemma_load_refuses_other_encodings(
    pre: StateView,
    bytes: Seq<u8>,
    encoding: GraphEncoding,
    post: StateView,
    r: Result<u32, Error>,
)
    requires
        State::loaded(pre, bytes, encoding, post, r),
        encoding != GraphEncoding::Onnx,
    ensures
        r == Err::<u32, Error>(Error::InvalidEncoding),
        post == pre,
{
}

/// A context is not opened on a handle that stands for no model, whatever the
/// parser made: the answer is `RuntimeError`, and the registry stays as it was.
pub proof fn lemma_unknown_model_is_refused(
    pre: StateView,
    model: u32,
    parsed: Option<TractGraph>,
    post: StateView,
    r: Result<u32, Error>,
)
    requires
        State::context_opened(pre, model, parsed, post, r),
        !pre.has_model(model),
    ensures
        r == Err::<u32, Error>(Error::RuntimeError),
        post == pre,
{
}

/// A context is not opened on a model of which the parser made no graph: the
/// answer is `RuntimeError`, and the registry stays as it was.
pub proof fn lemma_unparsed_model_is_refused(pre: StateView, model: u32, post: StateView, r: Result<u32, Error>)
    requires
        State::context_opened(pre, model, None, post, r),
    ensures
        r == Err::<u32, Error>(Error::RuntimeError),
        post == pre,
{
}

/// A context is owed on every model of which the parser made a graph, while a
/// handle is left: it is the next handle, which is one more than the greatest
/// in use and 0 where none is; its session is on that graph, with no list of
/// inputs and no outputs; and everything else stays as it was.
pub proof fn lemma_context_is_owed(
    pre: StateView,
    model: u32,
    graph: TractGraph,
    post: StateView,
    r: Result<u32, Error>,
)
    requires
        State::context_opened(pre, model, Some(graph), post, r),
        pre.has_model(model),
        pre.executions.len() <= u32::MAX,
    ensures
        r == Ok::<u32, Error>(pre.executions.len() as u32),
        Some(r->Ok_0) == following(greatest_of(pre.executions.len())),
        post.executions == pre.executions.push(SessionView { graph, inputs: None, outputs: None }),
        post.models == pre.models,
        post.order == pre.order,
{
}

/// Two contexts opened on one model, of which the parser made the same graph,
/// start alike: on that graph, with no list of inputs and no outputs.
pub proof fn lemma_contexts_of_one_model_start_alike(
    s0: StateView,
    s1: StateView,
    s2: StateView,
    model: u32,
    graph: TractGraph,
    first: Result<u32, Error>,
    second: Result<u32, Error>,
)
    requires
        State::context_opened(s0, model, Some(graph), s1, first),
        State::context_opened(s1, model, Some(graph), s2, second),
        first is Ok,
        second is Ok,
    ensures
        first->Ok_0 != second->Ok_0,
        s2.executions[first->Ok_0 as int] == s2.executions[second->Ok_0 as int],
{
}

/// A context that `init_execution_context` gives out is new, greater than every
/// context in use, and its session has no list of inputs and no outputs.
pub proof fn lemma_context_is_fresh(
    pre: StateView,
    model: u32,
    parsed: Option<TractGraph>,
    post: StateView,
    r: Result<u32, Error>,
)
    requires
        State::context_opened(pre, model, parsed, post, r),
        r is Ok,
    ensures
        pre.has_model(model),
        parsed is Some,
        !pre.has_session(r->Ok_0),
        forall|h: u32| pre.has_session(h) ==> h < r->Ok_0,
        post.has_session(r->Ok_0),
        post.executions[r->Ok_0 as int].inputs is None,
        post.executions[r->Ok_0 as int].outputs is None,
        post.executions[r->Ok_0 as int].phase() == Phase::Initialized,
        forall|h: u32| pre.has_session(h) ==> post.executions[h as int] == pre.executions[h as int],
        post.models == pre.models,
{
}

/// After a computation that succeeded, another one on the same context is
/// refused with `RuntimeError` and changes nothing, whatever the engine
/// answered; and the engine is not to be asked again.
pub proof fn lemma_compute_twice(
    s0: StateView,
    s1: StateView,
    s2: StateView,
    ctx: u32,
    first_answer: Option<Seq<Tensor>>,
    second_answer: Option<Seq<Tensor>>,
    first: Result<(), Error>,
    second: Result<(), Error>,
    again: Result<Question, Error>,
)
    requires
        State::computed(s0, ctx, first_answer, s1, first),
        State::computed(s1, ctx, second_answer, s2, second),
        State::asked(s1, ctx, again),
        first is Ok,
    ensures
        second == Err::<(), Error>(Error::RuntimeError),
        s2 == s1,
        again is Err,
{
}

/// Binding an input neither brings outputs nor takes them away, in any session.
pub proof fn lemma_input_keeps_outputs(
    pre: StateView,
    ctx: u32,
    index: u32,
    dimensions: Seq<u32>,
    data: Seq<u8>,
    post: StateView,
    r: Result<(), Error>,
    other: u32,
)
    requires
        State::input_set(pre, ctx, index, dimensions, data, post, r),
    ensures
        post.has_session(other) == pre.has_session(other),
        pre.has_session(other) ==> post.executions[other as int].outputs == pre.executions[other as int].outputs,
        pre.has_session(other) && other != ctx ==> post.executions[other as int] == pre.executions[other as int],
{
}

/// A computation touches no session but its own.
pub proof fn lemma_compute_keeps_others(
    pre: StateView,
    ctx: u32,
    answer: Option<Seq<Tensor>>,
    post: StateView,
    r: Result<(), Error>,
    other: u32,
)
    requires
        State::computed(pre, ctx, answer, post, r),
        other != ctx,
    ensures
        post.has_session(other) == pre.has_session(other),
        pre.has_session(other) ==> post.executions[other as int] == pre.executions[other as int],
{
}

/// A context that was just opened gives no output: asking for one is refused
/// with `RuntimeError`.
pub proof fn lemma_no_output_from_a_new_context(
    pre: StateView,
    model: u32,
    parsed: Option<TractGraph>,
    post: StateView,
    opened: Result<u32, Error>,
    index: u32,
    r: Result<TensorResult, Error>,
)
    requires
        State::context_opened(pre, model, parsed, post, opened),
        opened is Ok,
        State::output_read(post, opened->Ok_0, index, r),
    ensures
        r is Err,
        r->Err_0 == Error::RuntimeError,
{
}

/// A session without outputs gives none, however many inputs are bound to it
/// first: after an input, asking for an output is still refused with
/// `RuntimeError`.
pub proof fn lemma_no_output_before_compute(
    pre: StateView,
    ctx: u32,
    slot: u32,
    dimensions: Seq<u32>,
    data: Seq<u8>,
    post: StateView,
    bound: Result<(), Error>,
    index: u32,
    r: Result<TensorResult, Error>,
)
    requires
        pre.has_session(ctx),
        pre.executions[ctx as int].outputs is None,
        State::input_set(pre, ctx, slot, dimensions, data, post, bound),
        State::output_read(post, ctx, index, r),
    ensures
        post.executions[ctx as int].outputs is None,
        r is Err,
        r->Err_0 == Error::RuntimeError,
{
}

/// No operation takes anything out of the registry: after a load, the opening
/// of a context, an input or a computation, every model is there under its
/// handle with its bytes, and there are as many sessions as before or one more.
pub proof fn lemma_registry_only_grows(
    pre: StateView,
    post: StateView,
    handle: u32,
    index: u32,
    bytes: Seq<u8>,
    dimensions: Seq<u32>,
    encoding: GraphEncoding,
    parsed: Option<TractGraph>,
    answer: Option<Seq<Tensor>>,
    issued: Result<u32, Error>,
    done: Result<(), Error>,
)
    requires
        State::loaded(pre, bytes, encoding, post, issued) || State::context_opened(
            pre,
            handle,
            parsed,
            post,
            issued,
        )
            || State::input_set(pre, handle, index, dimensions, bytes, post, done) || State::computed(
            pre,
            handle,
            answer,
            post,
            done,
        ),
    ensures
        pre.kept_by(post),
        post.models.len() <= pre.models.len() + 1,
        post.executions.len() <= pre.executions.len() + 1,
{
}

/// Two sessions that are alike stay alike when the same input is bound to
/// each: the engine will be asked the same question about both.
pub proof fn lemma_same_input_same_question(
    pre: StateView,
    mid: StateView,
    post: StateView,
    a: u32,
    b: u32,
    index: u32,
    dimensions: Seq<u32>,
    data: Seq<u8>,
)
    requires
        pre.has_session(a),
        pre.has_session(b),
        pre.executions[a as int] == pre.executions[b as int],
        State::input_set(pre, a, index, dimensions, data, mid, Ok(())),
        State::input_set(mid, b, index, dimensions, data, post, Ok(())),
    ensures
        post.executions[a as int] == post.executions[b as int],
{
}

/// Two sessions that are alike are computed alike: the engine is to be asked
/// the same question about both, and where it gives the same answer to both,
/// they hold the same outputs, and reading the same output of each gives the
/// same shape and the same bytes.
pub proof fn lemma_alike_sessions_give_alike_outputs(
    s0: StateView,
    s1: StateView,
    s2: StateView,
    a: u32,
    b: u32,
    about_a: Result<Question, Error>,
    about_b: Result<Question, Error>,
    answer: Option<Seq<Tensor>>,
    at: u32,
    of_a: Result<TensorResult, Error>,
    of_b: Result<TensorResult, Error>,
)
    requires
        a != b,
        s0.has_session(a),
        s0.has_session(b),
        s0.executions[a as int] == s0.executions[b as int],
        State::asked(s0, a, about_a),
        State::asked(s0, b, about_b),
        State::computed(s0, a, answer, s1, Ok(())),
        State::computed(s1, b, answer, s2, Ok(())),
        State::output_read(s2, a, at, of_a),
        State::output_read(s2, b, at, of_b),
    ensures
        about_a is Ok && about_b is Ok,
        *about_a->Ok_0.graph == *about_b->Ok_0.graph,
        about_a->Ok_0.bound() == about_b->Ok_0.bound(),
        s2.executions[a as int] == s2.executions[b as int],
        of_a is Ok <==> of_b is Ok,
        of_a is Ok ==> of_a->Ok_0.dimensions@ == of_b->Ok_0.dimensions@,
        of_a is Ok ==> of_a->Ok_0.data@ == of_b->Ok_0.data@,
{
}

/// From the graph to the output: when a context is opened on a graph, one input
/// is bound to it, it is computed and output `at` is read, all with success,
/// then the engine was to be asked about that graph with the shape declared,
/// and about one tensor of that shape holding the decoded words; and what is
/// handed out is the shape and the encoded words of output `at` of the answer:
/// four bytes for each word, which decode to those words.
pub proof fn lemma_output_is_the_engines_answer(
    s0: StateView,
    s1: StateView,
    s2: StateView,
    s3: StateView,
    model: u32,
    graph: TractGraph,
    ctx: u32,
    index: u32,
    dimensions: Seq<u32>,
    data: Seq<u8>,
    about: Result<Question, Error>,
    outputs: Seq<Tensor>,
    at: u32,
    r: Result<TensorResult, Error>,
)
    requires
        State::context_opened(s0, model, Some(graph), s1, Ok(ctx)),
        State::input_set(s1, ctx, index, dimensions, data, s2, Ok(())),
        State::asked(s2, ctx, about),
        State::computed(s2, ctx, Some(outputs), s3, Ok(())),
        State::output_read(s3, ctx, at, r),
        r is Ok,
    ensures
        s0.has_model(model),
        shaped(graph, index as usize, widened(dimensions)) is Some,
        about is Ok,
        *about->Ok_0.graph == shaped(graph, index as usize, widened(dimensions))->Some_0,
        about->Ok_0.bound() == seq![tensor_of(widened(dimensions), decoded(s0.order, data))],
        tensor_dims(about->Ok_0.bound()[0]) == widened(dimensions),
        tensor_bits(about->Ok_0.bound()[0]) == decoded(s0.order, data),
        at < outputs.len(),
        tensor_is_fp32(outputs[at as int]),
        r->Ok_0.dimensions@ == narrowed(tensor_dims(outputs[at as int])),
        r->Ok_0.tensor_type == TensorType::Fp32,
        r->Ok_0.data@ == encoded(s0.order, tensor_bits(outputs[at as int])),
        r->Ok_0.data@.len() == 4 * tensor_bits(outputs[at as int]).len(),
        decoded(s0.order, r->Ok_0.data@) == tensor_bits(outputs[at as int]),
{
    let before = s2.executions[ctx as int];
    let input = tensor_of(widened(dimensions), decoded(s0.order, data));
    assert(before.bound() =~= seq![input]);
    crate::bytes::lemma_decode_encode(s0.order, tensor_bits(outputs[at as int]));
}

/// The input that is bound holds the caller's data, bit for bit: encoding the
/// words of the tensor that was bound gives the data back.
pub proof fn lemma_bound_input_holds_the_data(
    pre: StateView,
    ctx: u32,
    index: u32,
    dimensions: Seq<u32>,
    data: Seq<u8>,
    post: StateView,
)
    requires
        State::input_set(pre, ctx, index, dimensions, data, post, Ok(())),
    ensures
        post.executions[ctx as int].inputs is Some,
        post.executions[ctx as int].bound().len() == pre.executions[ctx as int].bound().len() + 1,
        tensor_dims(post.executions[ctx as int].bound().last()) == widened(dimensions),
        tensor_bits(post.executions[ctx as int].bound().last()).len() == data.len() / 4,
        encoded(pre.order, tensor_bits(post.executions[ctx as int].bound().last())) == data,
{
    crate::bytes::lemma_encode_decode(pre.order, data);
}

/// In a namespace that holds its entries under the handles 0, 1, 2, ..., the
/// handle that follows the greatest is the number of entries: so it is new,
/// and greater than every handle in use.
pub proof fn lemma_next_handle_is_the_count(count: nat)
    requires
        count <= u32::MAX,
    ensures
        following(greatest_of(count)) == Some(count as u32),
        !handles(count).contains(count as u32),
        forall|h: u32| handles(count).contains(h) ==> h < count,
{
}

} // verus!

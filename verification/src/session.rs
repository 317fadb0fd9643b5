//! One execution context: a graph, the inputs bound to it so far, and, once it
//! has been computed, its outputs.
//!
//! A session starts with a graph alone, takes inputs one by one in the order of
//! the calls, and is computed once. Its outputs, once there, stay: a second
//! computation is refused.
//!
//! The engine is not run here: the session says what to ask it, and takes the
//! answer.

use vstd::prelude::*;
use crate::engine::{
    declare_input_shape, graph_inputs, graph_nodes, shaped, slot_known, TractGraph,
};
use crate::wasi_nn::Error;
use tract_onnx::prelude::{Tensor, TractError};

verus! {

/// Where a session stands in its protocol.
#[derive(Clone, Copy, Debug, PartialEq, Eq, Structural)]
pub enum Phase {
    /// A graph and no input yet.
    Initialized,
    /// At least one input and no output.
    InputsBound,
    /// The outputs are there.
    Computed,
}

/// What the engine is asked about a session: a graph to compile and the
/// inputs to run it on, in their order. The inputs are absent where none was
/// ever bound: the engine is then to run the graph on no input.
pub struct Question<'a> {
    pub graph: &'a TractGraph,
    pub inputs: Option<&'a Vec<Tensor>>,
}

impl<'a> Question<'a> {
    /// The inputs to run the graph on, in their order.
    pub open spec fn bound(self) -> Seq<Tensor> {
        match self.inputs {
            Some(bound) => bound@,
            None => Seq::empty(),
        }
    }
}

/// The mutable record of one execution context.
pub struct TractSession {
    pub graph: TractGraph,
    pub input_tensors: Option<Vec<Tensor>>,
    pub output_tensors: Option<Vec<Tensor>>,
}

/// What a session holds, as the contracts speak of it.
pub struct SessionView {
    /// The graph, with the shapes declared so far.
    pub graph: TractGraph,
    /// The inputs bound so far, in the order in which they were bound; absent
    /// until the first is bound.
    pub inputs: Option<Seq<Tensor>>,
    /// The outputs, once the session has been computed.
    pub outputs: Option<Seq<Tensor>>,
}

impl SessionView {
    /// The inputs bound so far, in the order in which they were bound: none
    /// where the list is absent.
    pub open spec fn bound(self) -> Seq<Tensor> {
        match self.inputs {
            Some(bound) => bound,
            None => Seq::empty(),
        }
    }

    /// The phase that the inputs and outputs of a session put it in.
    pub open spec fn phase(self) -> Phase {
        if self.outputs is Some {
            Phase::Computed
        } else if self.bound().len() > 0 {
            Phase::InputsBound
        } else {
            Phase::Initialized
        }
    }
}

impl View for TractSession {
    type V = SessionView;

    open spec fn view(&self) -> SessionView {
        SessionView {
            graph: self.graph,
            inputs: match self.input_tensors {
                Some(bound) => Some(bound@),
                None => None,
            },
            outputs: self.outputs(),
        }
    }
}

/// What the engine answered, as the contracts speak of it: its outputs, or
/// `None` for a refusal.
pub open spec fn answer_of(outcome: Result<Vec<Tensor>, TractError>) -> Option<Seq<Tensor>> {
    match outcome {
        Ok(outputs) => Some(outputs@),
        Err(_) => None,
    }
}

impl TractSession {
    /// The inputs bound so far, in the order in which they were bound.
    pub open spec fn inputs(&self) -> Seq<Tensor> {
        match self.input_tensors {
            Some(bound) => bound@,
            None => Seq::empty(),
        }
    }

    /// The outputs, once the session has been computed.
    pub open spec fn outputs(&self) -> Option<Seq<Tensor>> {
        match self.output_tensors {
            Some(computed) => Some(computed@),
            None => None,
        }
    }

    /// The phase that the inputs and outputs of a session put it in.
    pub open spec fn phase(&self) -> Phase {
        self@.phase()
    }

    /// What becomes of a session when the engine has answered a computation:
    /// the outputs are stored when the engine succeeded and the session had
    /// none; in every other case the session stays as it was and the answer is
    /// `RuntimeError`.
    pub open spec fn outputs_stored(pre: Self, outcome: Result<Vec<Tensor>, TractError>, post: Self, r: Result<
        (),
        Error,
    >) -> bool {
        if pre.output_tensors is None && outcome is Ok {
            &&& r is Ok
            &&& post.graph == pre.graph
            &&& post.input_tensors == pre.input_tensors
            &&& post.output_tensors == Some(outcome->Ok_0)
        } else {
            &&& r == Err::<(), Error>(Error::RuntimeError)
            &&& post == pre
        }
    }

    /// A session on a graph, with no list of inputs and no outputs.
    pub fn with_graph(graph: TractGraph) -> (session: Self)
        ensures
            session.graph == graph,
            session.input_tensors is None,
            session.output_tensors is None,
            session@ == (SessionView { graph, inputs: None, outputs: None }),
            session.phase() == Phase::Initialized,
    {
        Self { graph, input_tensors: None, output_tensors: None }
    }

    /// The phase of the session.
    pub fn current_phase(&self) -> (phase: Phase)
        ensures
            phase == self.phase(),
    {
        if self.output_tensors.is_some() {
            Phase::Computed
        } else {
            match &self.input_tensors {
                Some(bound) => {
                    if bound.len() > 0 {
                        Phase::InputsBound
                    } else {
                        Phase::Initialized
                    }
                },
                None => Phase::Initialized,
            }
        }
    }

    /// Declares the shape of input slot `index` to the engine: the graph becomes
    /// what `shaped` names.
    ///
    /// A slot that the graph does not have, or whose node it does not have, is
    /// refused with `RuntimeError`, and so is a declaration that the graph
    /// refuses; nothing else is. A refusal leaves
    /// the session as it was. The inputs and outputs are never touched.
    pub fn declare_input_shape(&mut self, index: u32, shape: &Vec<usize>) -> (r: Result<(), Error>)
        ensures
            r is Ok <==> slot_known(old(self).graph, index as int) && shaped(
                old(self).graph,
                index as usize,
                shape@,
            ) is Some,
            r is Ok ==> final(self).graph == shaped(old(self).graph, index as usize, shape@)->Some_0,
            r is Err ==> r == Err::<(), Error>(Error::RuntimeError) && *final(self) == *old(self),
            graph_inputs(final(self).graph) == graph_inputs(old(self).graph),
            graph_nodes(final(self).graph) == graph_nodes(old(self).graph),
            final(self).input_tensors == old(self).input_tensors,
            final(self).output_tensors == old(self).output_tensors,
    {
        let slot: usize = index as usize;
        if !self.graph.knows_slot(slot) {
            return Err(Error::RuntimeError);
        }
        match declare_input_shape(&mut self.graph, slot, shape) {
            Ok(()) => Ok(()),
            Err(_) => Err(Error::RuntimeError),
        }
    }

    /// Binds one more input: it comes after those bound before, whatever slot
    /// its shape was declared for.
    pub fn append_input(&mut self, tensor: Tensor)
        ensures
            final(self).inputs() == old(self).inputs().push(tensor),
            final(self).input_tensors is Some,
            final(self).graph == old(self).graph,
            final(self).output_tensors == old(self).output_tensors,
            final(self).phase() == if old(self).phase() == Phase::Computed {
                Phase::Computed
            } else {
                Phase::InputsBound
            },
    {
        let mut bound: Vec<Tensor> = match self.input_tensors.take() {
            Some(earlier) => earlier,
            None => Vec::new(),
        };
        bound.push(tensor);
        self.input_tensors = Some(bound);
    }

    /// Binds an input whose shape was offered to the engine, given what the
    /// engine answered: the input is bound when the engine took the shape, and
    /// only then. When it did not, the answer is `RuntimeError` and the session
    /// stays as it was.
    pub fn accept_input(&mut self, declared: Result<(), TractError>, tensor: Tensor) -> (r: Result<(), Error>)
        ensures
            r is Ok <==> declared is Ok,
            r is Ok ==> final(self).inputs() == old(self).inputs().push(tensor),
            r is Err ==> r == Err::<(), Error>(Error::RuntimeError) && *final(self) == *old(self),
            final(self).graph == old(self).graph,
            final(self).output_tensors == old(self).output_tensors,
    {
        match declared {
            Ok(()) => {
                self.append_input(tensor);
                Ok(())
            },
            Err(_) => Err(Error::RuntimeError),
        }
    }

    /// Declares the shape of input slot `index` to the engine and, when the
    /// graph takes it, binds the tensor after the inputs bound before.
    ///
    /// A slot that the graph does not have, or whose node it does not have, is
    /// refused with `RuntimeError`, and so is a declaration that the graph
    /// refuses; nothing else is. A refusal leaves
    /// the session as it was. The outputs are never touched.
    pub fn set_input(&mut self, index: u32, shape: &Vec<usize>, tensor: Tensor) -> (r: Result<(), Error>)
        ensures
            r is Ok <==> slot_known(old(self).graph, index as int) && shaped(
                old(self).graph,
                index as usize,
                shape@,
            ) is Some,
            r is Ok ==> final(self).graph == shaped(old(self).graph, index as usize, shape@)->Some_0,
            r is Ok ==> final(self).inputs() == old(self).inputs().push(tensor),
            r is Err ==> r == Err::<(), Error>(Error::RuntimeError) && *final(self) == *old(self),
            graph_inputs(final(self).graph) == graph_inputs(old(self).graph),
            graph_nodes(final(self).graph) == graph_nodes(old(self).graph),
            final(self).output_tensors == old(self).output_tensors,
    {
        let slot: usize = index as usize;
        if !self.graph.knows_slot(slot) {
            return Err(Error::RuntimeError);
        }
        let declared = declare_input_shape(&mut self.graph, slot, shape);
        self.accept_input(declared, tensor)
    }

    /// Stores what the engine answered to the session's question.
    ///
    /// The outputs are stored when the engine succeeded and the session had none.
    /// In every other case the session stays as it was and the answer is
    /// `RuntimeError`.
    pub fn store_outputs(&mut self, outcome: Result<Vec<Tensor>, TractError>) -> (r: Result<(), Error>)
        ensures
            Self::outputs_stored(*old(self), outcome, *final(self), r),
    {
        if self.output_tensors.is_some() {
            return Err(Error::RuntimeError);
        }
        match outcome {
            Ok(computed) => {
                self.output_tensors = Some(computed);
                Ok(())
            },
            Err(_) => Err(Error::RuntimeError),
        }
    }

    /// What the engine is to be asked about the session: to compile this graph
    /// as its inputs' shapes stand, and to run it on the inputs bound so far, in
    /// the order in which they were bound; on none where none was bound.
    ///
    /// A session that has outputs already is refused with `RuntimeError`: it is
    /// computed once, and the engine is not asked again.
    pub fn question<'a>(&'a self) -> (r: Result<Question<'a>, Error>)
        ensures
            r is Ok <==> self.output_tensors is None,
            r is Ok ==> *r->Ok_0.graph == self.graph && r->Ok_0.bound() == self.inputs(),
            r is Ok ==> (r->Ok_0.inputs is Some <==> self.input_tensors is Some),
            r is Err ==> r->Err_0 == Error::RuntimeError,
    {
        if self.output_tensors.is_some() {
            return Err(Error::RuntimeError);
        }
        Ok(Question { graph: &self.graph, inputs: self.input_tensors.as_ref() })
    }

    /// Computes the session with the engine given: the engine is asked the
    /// session's question, once, and its answer is stored as `store_outputs`
    /// says.
    ///
    /// A session that has outputs already is refused with `RuntimeError` before
    /// the engine is asked, and stays as it was. So does one that the engine
    /// refuses.
    pub fn compute<F>(&mut self, engine: F) -> (r: Result<(), Error>) where
        F: FnOnce(Question) -> Result<Vec<Tensor>, TractError>,

        requires
            forall|question: Question| #[trigger] engine.requires((question,)),
        ensures
            old(self).output_tensors is Some ==> r == Err::<(), Error>(Error::RuntimeError) && *final(self)
                == *old(self),
            old(self).output_tensors is None ==> exists|
                question: Question,
                outcome: Result<Vec<Tensor>, TractError>,
            |
                {
                    &&& *question.graph == old(self).graph
                    &&& question.bound() == old(self).inputs()
                    &&& question.inputs is Some <==> old(self).input_tensors is Some
                    &&& #[trigger] engine.ensures((question,), outcome)
                    &&& Self::outputs_stored(*old(self), outcome, *final(self), r)
                },
    {
        let outcome = match self.question() {
            Ok(question) => engine(question),
            Err(e) => {
                return Err(e);
            },
        };
        self.store_outputs(outcome)
    }

    /// The output at `index`.
    ///
    /// It is there when the session has been computed and has more than `index`
    /// outputs; otherwise the answer is `RuntimeError`.
    pub fn read_output(&self, index: u32) -> (r: Result<&Tensor, Error>)
        ensures
            r is Ok <==> self.outputs() is Some && index < self.outputs()->Some_0.len(),
            r is Ok ==> *r->Ok_0 == self.outputs()->Some_0[index as int],
            r is Err ==> r->Err_0 == Error::RuntimeError,
    {
        match &self.output_tensors {
            Some(computed) => {
                let at: usize = index as usize;
                if at < computed.len() {
                    Ok(&computed[at])
                } else {
                    Err(Error::RuntimeError)
                }
            },
            None => Err(Error::RuntimeError),
        }
    }
}

} // verus!

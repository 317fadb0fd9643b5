use tract_onnx::prelude::{tensor1, tensor2, Tensor, TractError};
use tract_onnx::prelude::Framework;
use tract_onnx::prelude::{InferenceModelExt, IntoRunnable, IntoTensor, TValue};
use wasi_nn_tract::session::Question;
use wasi_nn_tract::bytes::{floats_to_bytes, ByteOrder};
use wasi_nn_tract::engine::TractGraph;
use wasi_nn_tract::session::{Phase, TractSession};
use wasi_nn_tract::state::State;
use wasi_nn_tract::wasi_nn::{Error, ExecutionTarget, GraphEncoding, TensorType};

fn negation_bytes() -> Vec<u8> {
    vec![
        8, 7, 66, 4, 10, 0, 16, 13, 58, 62, 10, 15, 10, 1, 120, 18, 1, 121, 26, 2, 110, 48, 34, 3, 78, 101, 103, 18, 1, 103, 90, 19, 10, 1, 120, 18, 14, 10, 12, 8, 1, 18, 8, 10, 2, 8, 1, 10, 2, 8, 3, 98, 19, 10, 1, 121, 18, 14, 10, 12, 8, 1, 18, 8, 10, 2, 8, 1, 10, 2, 8, 3,
    ]
}


fn difference_bytes() -> Vec<u8> {
    vec![
        8, 7, 66, 4, 10, 0, 16, 13, 58, 86, 10, 18, 10, 1, 97, 10, 1, 98, 18, 1, 121, 26, 2, 110, 48, 34, 3, 83, 117, 98, 18, 1, 103, 90, 19, 10, 1, 97, 18, 14, 10, 12, 8, 1, 18, 8, 10, 2, 8, 1, 10, 2, 8, 3, 90, 19, 10, 1, 98, 18, 14, 10, 12, 8, 1, 18, 8, 10, 2, 8, 1, 10, 2, 8, 3, 98, 19, 10, 1, 121, 18, 14, 10, 12, 8, 1, 18, 8, 10, 2, 8, 1, 10, 2, 8, 3,
    ]
}

fn run(question: Question) -> Result<Vec<Tensor>, TractError> {
    let typed = question.graph.model.clone().into_optimized()?;
    let plan = typed.into_runnable()?;
    let inputs = match question.inputs {
        Some(bound) => bound.iter().cloned().map(TValue::from).collect(),
        None => Default::default(),
    };
    let outputs = plan.run(inputs)?;
    Ok(outputs.into_iter().map(|value| value.into_tensor()).collect())
}

fn compute(session: &mut TractSession) -> Result<(), Error> {
    session.compute(run)
}

fn parse(bytes: &Vec<u8>) -> Option<TractGraph> {
    let mut reader = bytes.as_slice();
    tract_onnx::onnx().model_for_read(&mut reader).ok().map(|model| TractGraph { model })
}

fn open(state: &mut State, graph: u32) -> Result<u32, Error> {
    state.init_execution_context(graph, parse)
}

fn engine_with_one_session() -> (State, u32) {
    let mut state = State::with_order(ByteOrder::Little);
    let graph = state.load(negation_bytes(), GraphEncoding::Onnx, ExecutionTarget::Cpu).unwrap();
    let ctx = open(&mut state, graph).unwrap();
    (state, ctx)
}

#[test]
fn session_is_reached_by_its_handle_only() {
    let (mut state, ctx) = engine_with_one_session();
    assert!(state.get_session(ctx).is_some());
    assert!(state.get_session_mut(ctx).is_some());
    assert!(state.get_session(ctx + 1).is_none());
    assert!(state.get_session_mut(ctx + 1).is_none());
    assert!(state.get_session_mut(u32::MAX).is_none());
}

#[test]
fn stored_outputs_are_read_back() {
    let (mut state, ctx) = engine_with_one_session();
    let session: &mut TractSession = state.get_session_mut(ctx).unwrap();
    let outputs: Vec<Tensor> = vec![tensor1(&[1.5f32, -2.0]), tensor2(&[[1.0f32, 2.0, 3.0], [4.0, 5.0, 6.0]])];
    assert_eq!(session.store_outputs(Ok(outputs)), Ok(()));
    assert_eq!(session.current_phase(), Phase::Computed);
    assert_eq!(session.read_output(0).unwrap().shape(), &[2]);
    assert_eq!(session.read_output(1).unwrap().shape(), &[2, 3]);
    assert_eq!(session.read_output(2).err(), Some(Error::RuntimeError));

    let first = state.get_output(ctx, 0).unwrap();
    assert_eq!(first.dimensions, vec![2]);
    assert_eq!(first.tensor_type, TensorType::Fp32);
    assert_eq!(first.data, floats_to_bytes(&vec![1.5f32.to_bits(), (-2.0f32).to_bits()], ByteOrder::Little));
    assert_eq!(first.data, vec![0x00, 0x00, 0xc0, 0x3f, 0x00, 0x00, 0x00, 0xc0]);
    let second = state.get_output(ctx, 1).unwrap();
    assert_eq!(second.dimensions, vec![2, 3]);
    assert_eq!(second.data.len(), 24);
}

#[test]
fn outputs_are_stored_once() {
    let (mut state, ctx) = engine_with_one_session();
    let session = state.get_session_mut(ctx).unwrap();
    assert_eq!(session.store_outputs(Ok(vec![tensor1(&[1.0f32])])), Ok(()));
    assert_eq!(session.store_outputs(Ok(vec![tensor1(&[2.0f32])])), Err(Error::RuntimeError));
    assert_eq!(session.store_outputs(Err(TractError::msg("refused"))), Err(Error::RuntimeError));
    let kept = state.get_output(ctx, 0).unwrap();
    assert_eq!(kept.data, vec![0x00, 0x00, 0x80, 0x3f]);
}

#[test]
fn engine_failure_stores_nothing() {
    let (mut state, ctx) = engine_with_one_session();
    let session = state.get_session_mut(ctx).unwrap();
    assert_eq!(session.store_outputs(Err(TractError::msg("refused"))), Err(Error::RuntimeError));
    assert!(session.output_tensors.is_none());
    assert_eq!(session.current_phase(), Phase::Initialized);
    assert_eq!(session.read_output(0).err(), Some(Error::RuntimeError));
}

#[test]
fn output_of_another_element_type_is_refused() {
    let (mut state, ctx) = engine_with_one_session();
    let session = state.get_session_mut(ctx).unwrap();
    assert_eq!(session.store_outputs(Ok(vec![tensor1(&[1i64, 2, 3]), tensor1(&[0.5f32])])), Ok(()));
    assert_eq!(state.get_output(ctx, 0).err(), Some(Error::RuntimeError));
    assert_eq!(state.get_output(ctx, 1).unwrap().data, vec![0x00, 0x00, 0x00, 0x3f]);
}

#[test]
fn input_is_bound_when_the_shape_was_taken() {
    let (mut state, ctx) = engine_with_one_session();
    let session = state.get_session_mut(ctx).unwrap();
    assert_eq!(
        session.accept_input(Err(TractError::msg("refused")), tensor1(&[1.0f32])),
        Err(Error::RuntimeError)
    );
    assert!(session.input_tensors.is_none());
    assert_eq!(session.accept_input(Ok(()), tensor1(&[1.0f32, 2.0])), Ok(()));
    assert_eq!(session.accept_input(Ok(()), tensor1(&[3.0f32])), Ok(()));
    let bound = session.input_tensors.as_ref().unwrap();
    assert_eq!(bound.len(), 2);
    assert_eq!(bound[0].shape(), &[2]);
    assert_eq!(bound[1].shape(), &[1]);
    assert_eq!(session.current_phase(), Phase::InputsBound);
}

#[test]
fn inputs_are_appended_in_call_order() {
    let (mut state, ctx) = engine_with_one_session();
    let session = state.get_session_mut(ctx).unwrap();
    session.append_input(tensor1(&[1.0f32, 2.0, 3.0]));
    session.append_input(tensor2(&[[4.0f32], [5.0]]));
    let bound = session.input_tensors.as_ref().unwrap();
    assert_eq!(bound.len(), 2);
    assert_eq!(bound[0].shape(), &[3]);
    assert_eq!(bound[1].shape(), &[2, 1]);
    assert!(session.output_tensors.is_none());
}

#[test]
fn shape_is_declared_for_a_slot_of_the_graph() {
    let (mut state, ctx) = engine_with_one_session();
    let session = state.get_session_mut(ctx).unwrap();
    assert_eq!(session.declare_input_shape(1, &vec![1, 3]), Err(Error::RuntimeError));
    assert_eq!(session.declare_input_shape(u32::MAX, &vec![1, 3]), Err(Error::RuntimeError));
    assert_eq!(session.declare_input_shape(0, &vec![1, 3]), Ok(()));
    assert!(session.input_tensors.is_none());
    assert_eq!(session.current_phase(), Phase::Initialized);
}

#[test]
fn session_binds_and_computes_on_its_own() {
    let (mut state, ctx) = engine_with_one_session();
    let session = state.get_session_mut(ctx).unwrap();
    assert_eq!(
        session.set_input(3, &vec![1, 3], tensor2(&[[1.0f32, 2.0, 3.0]])),
        Err(Error::RuntimeError)
    );
    assert!(session.input_tensors.is_none());
    assert_eq!(session.set_input(0, &vec![1, 3], tensor2(&[[1.0f32, 2.0, 3.0]])), Ok(()));
    assert_eq!(compute(session), Ok(()));
    assert_eq!(compute(session), Err(Error::RuntimeError));
    let output = session.read_output(0).unwrap();
    assert_eq!(output.shape(), &[1, 3]);
    assert_eq!(state.get_output(ctx, 0).unwrap().data, floats_to_bytes(
        &vec![(-1.0f32).to_bits(), (-2.0f32).to_bits(), (-3.0f32).to_bits()],
        ByteOrder::Little,
    ));
}

#[test]
fn graph_is_parsed_from_model_bytes() {
    let one = parse(&negation_bytes()).unwrap();
    assert_eq!(one.input_count(), 1);
    let two = parse(&difference_bytes()).unwrap();
    assert_eq!(two.input_count(), 2);
    assert!(parse(&vec![0xff, 0xff, 0xff]).is_none());
}

#[test]
fn session_on_a_graph_starts_empty() {
    let mut session = TractSession::with_graph(parse(&difference_bytes()).unwrap());
    assert!(session.input_tensors.is_none());
    assert!(session.output_tensors.is_none());
    assert_eq!(session.current_phase(), Phase::Initialized);
    assert_eq!(session.graph.input_count(), 2);
    assert_eq!(session.read_output(0).err(), Some(Error::RuntimeError));
    assert_eq!(session.set_input(2, &vec![1, 3], tensor2(&[[1.0f32, 2.0, 3.0]])), Err(Error::RuntimeError));
    assert_eq!(session.set_input(0, &vec![1, 3], tensor2(&[[1.0f32, 2.0, 3.0]])), Ok(()));
    assert_eq!(session.current_phase(), Phase::InputsBound);
    assert_eq!(session.graph.input_count(), 2);
}

#[test]
fn question_holds_the_graph_and_the_inputs_in_order() {
    let (mut state, ctx) = engine_with_one_session();
    let session = state.get_session_mut(ctx).unwrap();
    let empty = session.question().ok().unwrap();
    assert_eq!(empty.graph.input_count(), 1);
    assert!(empty.inputs.is_none());
    session.append_input(tensor1(&[1.0f32, 2.0, 3.0]));
    session.append_input(tensor2(&[[4.0f32], [5.0]]));
    let question = session.question().ok().unwrap();
    let inputs = question.inputs.unwrap();
    assert_eq!(inputs.len(), 2);
    assert_eq!(inputs[0], tensor1(&[1.0f32, 2.0, 3.0]));
    assert_eq!(inputs[1], tensor2(&[[4.0f32], [5.0]]));
    assert_eq!(session.store_outputs(Ok(vec![tensor1(&[0.5f32])])), Ok(()));
    assert_eq!(session.question().err(), Some(Error::RuntimeError));
    assert_eq!(state.question(ctx).err(), Some(Error::RuntimeError));
    assert_eq!(state.question(ctx + 1).err(), Some(Error::RuntimeError));
}

#[test]
fn engine_is_asked_once_and_only_where_outputs_are_owed() {
    let (mut state, ctx) = engine_with_one_session();
    let mut asked = 0;
    assert_eq!(state.compute_with(ctx + 1, |question| { asked += 1; run(question) }), Err(Error::RuntimeError));
    assert_eq!(asked, 0);
    state.get_session_mut(ctx).unwrap().set_input(0, &vec![1, 3], tensor2(&[[1.0f32, 2.0, 3.0]])).unwrap();
    assert_eq!(state.compute_with(ctx, |_| { asked += 1; Err(TractError::msg("refused")) }), Err(Error::RuntimeError));
    assert_eq!(asked, 1);
    assert!(state.get_session(ctx).unwrap().output_tensors.is_none());
    assert_eq!(state.compute_with(ctx, |question| { asked += 1; run(question) }), Ok(()));
    assert_eq!(asked, 2);
    assert_eq!(state.compute_with(ctx, |question| { asked += 1; run(question) }), Err(Error::RuntimeError));
    assert_eq!(asked, 2);
    assert_eq!(state.compute(ctx, Ok(vec![tensor1(&[9.0f32])])), Err(Error::RuntimeError));
    assert_eq!(state.get_session(ctx).unwrap().read_output(0).unwrap(), &tensor2(&[[-1.0f32, -2.0, -3.0]]));
}

#[test]
fn parser_is_handed_the_bytes_of_the_model() {
    let mut state = State::with_order(ByteOrder::Little);
    let first = state.load(vec![1, 2, 3], GraphEncoding::Onnx, ExecutionTarget::Cpu).unwrap();
    let second = state.load(negation_bytes(), GraphEncoding::Onnx, ExecutionTarget::Cpu).unwrap();
    let mut seen: Vec<Vec<u8>> = Vec::new();
    assert_eq!(state.init_execution_context(7, |bytes| { seen.push(bytes.clone()); parse(bytes) }), Err(Error::RuntimeError));
    assert!(seen.is_empty());
    assert_eq!(state.init_execution_context(first, |bytes| { seen.push(bytes.clone()); parse(bytes) }), Err(Error::RuntimeError));
    assert_eq!(state.init_execution_context(second, |bytes| { seen.push(bytes.clone()); None }), Err(Error::RuntimeError));
    assert!(state.executions.is_empty());
    assert_eq!(state.init_execution_context(second, |bytes| { seen.push(bytes.clone()); parse(bytes) }), Ok(0));
    assert_eq!(seen, vec![vec![1, 2, 3], negation_bytes(), negation_bytes()]);
}

#[test]
fn question_carries_the_declared_shape() {
    let mut session = TractSession::with_graph(parse(&negation_bytes()).unwrap());
    assert_eq!(session.set_input(0, &vec![1, 3], tensor2(&[[1.0f32, 2.0, 3.0]])), Ok(()));
    let outputs = run(session.question().ok().unwrap()).unwrap();
    assert_eq!(outputs, vec![tensor2(&[[-1.0f32, -2.0, -3.0]])]);
    let mut other = TractSession::with_graph(parse(&negation_bytes()).unwrap());
    assert_eq!(other.set_input(0, &vec![3], tensor1(&[1.0f32, 2.0, 3.0])), Ok(()));
    let outputs = run(other.question().ok().unwrap()).unwrap();
    assert_eq!(outputs, vec![tensor1(&[-1.0f32, -2.0, -3.0])]);
    assert_eq!(outputs[0].shape(), &[3]);
}

#[test]
fn slot_without_its_node_is_refused() {
    let mut model = tract_onnx::prelude::InferenceModel::default();
    model.inputs.push(tract_onnx::prelude::OutletId::new(3, 0));
    let graph = TractGraph { model };
    assert_eq!(graph.input_count(), 1);
    assert!(!graph.knows_slot(0));
    assert!(!graph.knows_slot(1));
    let mut session = TractSession::with_graph(graph);
    assert_eq!(session.declare_input_shape(0, &vec![1, 3]), Err(Error::RuntimeError));
    assert_eq!(session.set_input(0, &vec![1, 3], tensor2(&[[1.0f32, 2.0, 3.0]])), Err(Error::RuntimeError));
    assert!(session.input_tensors.is_none());
    let sound = parse(&negation_bytes()).unwrap();
    assert!(sound.knows_slot(0));
    assert!(!sound.knows_slot(1));
}

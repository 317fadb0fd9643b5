//! The engine as callers share it: one registry behind one reader/writer lock.
//!
//! `load`, `init_execution_context`, `set_input` and `compute` take the lock for
//! writing, `get_output` for reading. A poisoned lock, one that a writer held
//! when it ended abnormally, is answered with `RuntimeError` by every
//! operation.
//!
//! What the registry holds when the lock is taken depends on every other
//! caller, so the contracts here say what holds whatever it held; what an
//! operation does to the registry it finds is the contract of the same
//! operation of `State`.

use vstd::prelude::*;
use std::sync::{Arc, LockResult, RwLock, RwLockReadGuard, RwLockWriteGuard, PoisonError};
use crate::{bytes::ByteOrder, engine::TractGraph, session::{answer_of, Question}, state::{State, StateView}};
use crate::wasi_nn::{Error, ExecutionTarget, GraphEncoding, TensorParam, TensorResult};
use tract_onnx::prelude::{Tensor, TractError};

verus! {

/// The reader/writer lock of std.
#[verifier::external_type_specification]
#[verifier::external_body]
#[verifier::reject_recursive_types(T)]
pub struct ExRwLock<T: ?Sized>(RwLock<T>);

/// The guard of a lock held for writing.
#[verifier::external_type_specification]
#[verifier::external_body]
#[verifier::reject_recursive_types(T)]
pub struct ExRwLockWriteGuard<'a, T: ?Sized + 'a>(RwLockWriteGuard<'a, T>);

/// The guard of a lock held for reading.
#[verifier::external_type_specification]
#[verifier::external_body]
#[verifier::reject_recursive_types(T)]
pub struct ExRwLockReadGuard<'a, T: ?Sized>(RwLockReadGuard<'a, T>);

/// What a poisoned lock answers.
#[verifier::external_type_specification]
#[verifier::external_body]
#[verifier::reject_recursive_types(T)]
pub struct ExPoisonError<T>(PoisonError<T>);

/// `RwLock::new`: a lock that holds the given value. Nothing is claimed of it.
pub assume_specification<T>[ RwLock::<T>::new ](t: T) -> (lock: RwLock<T>);

/// `RwLock::write`: waits for the lock and takes it for writing, or reports that
/// it is poisoned. Nothing is claimed of the outcome.
pub assume_specification<'a, T: ?Sized>[ RwLock::<T>::write ](lock: &'a RwLock<T>) -> (r: LockResult<
    RwLockWriteGuard<'a, T>,
>);

/// `RwLock::read`: waits for the lock and takes it for reading, or reports that
/// it is poisoned. Nothing is claimed of the outcome.
pub assume_specification<'a, T: ?Sized>[ RwLock::<T>::read ](lock: &'a RwLock<T>) -> (r: LockResult<
    RwLockReadGuard<'a, T>,
>);

/// `DerefMut::deref_mut` of a write guard: the registry that the lock holds.
/// Nothing is claimed of what it holds.
#[verifier::external_body]
fn held_mut<'a, 'b>(guard: &'a mut RwLockWriteGuard<'b, State>) -> (state: &'a mut State) {
    std::ops::DerefMut::deref_mut(guard)
}

/// `Deref::deref` of a read guard: the registry that the lock holds. Nothing is
/// claimed of what it holds.
#[verifier::external_body]
fn held<'a, 'b>(guard: &'a RwLockReadGuard<'b, State>) -> (state: &'a State) {
    std::ops::Deref::deref(guard)
}

/// One engine, shared: every caller works on the same registry, one writer or
/// any number of readers at a time.
pub struct WasiNnTractCtx {
    pub state: Arc<RwLock<State>>,
}

impl Default for WasiNnTractCtx {
    /// An engine with an empty registry in the byte order of the machine.
    fn default() -> (ctx: Self) {
        WasiNnTractCtx::with_state(State::new())
    }
}

impl WasiNnTractCtx {
    /// An engine on a given registry.
    pub fn with_state(state: State) -> (ctx: Self) {
        WasiNnTractCtx::on_lock(Arc::new(RwLock::new(state)))
    }

    /// An engine on the registry that a given lock guards.
    pub fn on_lock(lock: Arc<RwLock<State>>) -> (ctx: Self)
        ensures
            ctx.state == lock,
    {
        WasiNnTractCtx { state: lock }
    }

    /// Another handle to the same engine, for another caller.
    pub fn share(&self) -> (ctx: Self)
        ensures
            ctx.state == self.state,
    {
        WasiNnTractCtx::on_lock(Arc::clone(&self.state))
    }

    /// What becomes of an attempt to take the lock for writing: the guard, or
    /// `RuntimeError` where the lock is poisoned.
    ///
    /// Every operation takes the lock itself. A caller that holds a guard of
    /// `state` must give it back first: std may block forever, or panic, where
    /// a thread asks again for a lock that it holds.
    pub fn writing<'a>(taken: LockResult<RwLockWriteGuard<'a, State>>) -> (r: Result<
        RwLockWriteGuard<'a, State>,
        Error,
    >)
        ensures
            r is Ok <==> taken is Ok,
            r is Ok ==> r->Ok_0 == taken->Ok_0,
            r is Err ==> r->Err_0 == Error::RuntimeError,
    {
        match taken {
            Ok(guard) => Ok(guard),
            Err(_) => Err(Error::RuntimeError),
        }
    }

    /// What becomes of an attempt to take the lock for reading: the guard, or
    /// `RuntimeError` where the lock is poisoned.
    pub fn reading<'a>(taken: LockResult<RwLockReadGuard<'a, State>>) -> (r: Result<
        RwLockReadGuard<'a, State>,
        Error,
    >)
        ensures
            r is Ok <==> taken is Ok,
            r is Ok ==> r->Ok_0 == taken->Ok_0,
            r is Err ==> r->Err_0 == Error::RuntimeError,
    {
        match taken {
            Ok(guard) => Ok(guard),
            Err(_) => Err(Error::RuntimeError),
        }
    }

    /// `State::load` under the write lock.
    ///
    /// Another encoding than ONNX is refused with `InvalidEncoding` before the
    /// lock is asked for, and nothing else is. A poisoned lock is answered with
    /// `RuntimeError`. Every other answer is that of `State::load` on the
    /// registry as the lock held it.
    pub fn load(&mut self, model_bytes: Vec<u8>, encoding: GraphEncoding, target: ExecutionTarget) -> (r: Result<
        u32,
        Error,
    >)
        ensures
            encoding != GraphEncoding::Onnx <==> r == Err::<u32, Error>(Error::InvalidEncoding),
            r == Err::<u32, Error>(Error::RuntimeError) || exists|pre: StateView, post: StateView|
                State::loaded(pre, model_bytes@, encoding, post, r),
            final(self).state == old(self).state,
    {
        match encoding {
            GraphEncoding::Onnx => {},
            _ => {
                proof {
                    let any = StateView { executions: Seq::empty(), models: Seq::empty(), order: ByteOrder::Little };
                    assert(State::loaded(any, model_bytes@, encoding, any, Err(Error::InvalidEncoding)));
                }
                return Err(Error::InvalidEncoding);
            },
        }
        match Self::writing(self.state.write()) {
            Ok(mut guard) => {
                let state: &mut State = held_mut(&mut guard);
                state.load(model_bytes, encoding, target)
            },
            Err(e) => Err(e),
        }
    }

    /// `State::init_execution_context` under the write lock, with the parser
    /// given, which must be guarded against ending abnormally: it runs while the
    /// lock is held. A poisoned lock is answered with `RuntimeError`, the only
    /// error there is. Every other answer is that of `State::init_execution_context`
    /// on the registry as the lock held it: a success opens the session on the
    /// graph that the parser made of the bytes of that model.
    pub fn init_execution_context<P>(&mut self, graph: u32, parser: P) -> (r: Result<u32, Error>) where
        P: FnOnce(&Vec<u8>) -> Option<TractGraph>,

        requires
            forall|bytes: &Vec<u8>| #[trigger] parser.requires((bytes,)),
        ensures
            r is Err ==> r->Err_0 == Error::RuntimeError,
            r is Ok ==> exists|pre: StateView, post: StateView, bytes: &Vec<u8>, parsed: Option<TractGraph>|
                {
                    &&& pre.has_model(graph)
                    &&& bytes@ == pre.models[graph as int]
                    &&& #[trigger] parser.ensures((bytes,), parsed)
                    &&& #[trigger] State::context_opened(pre, graph, parsed, post, r)
                },
            final(self).state == old(self).state,
    {
        match Self::writing(self.state.write()) {
            Ok(mut guard) => {
                let state: &mut State = held_mut(&mut guard);
                state.init_execution_context(graph, parser)
            },
            Err(e) => Err(e),
        }
    }

    /// `State::set_input` under the write lock. A poisoned lock is answered with
    /// `RuntimeError`, the only error there is. Every other answer is that of
    /// `State::set_input` on the registry as the lock held it: so data whose
    /// length is no multiple of four are refused whatever the registry holds.
    pub fn set_input(&mut self, ctx: u32, index: u32, tensor: &TensorParam) -> (r: Result<(), Error>)
        ensures
            r is Err ==> r->Err_0 == Error::RuntimeError,
            r is Ok ==> exists|pre: StateView, post: StateView|
                State::input_set(pre, ctx, index, tensor.dimensions@, tensor.data@, post, r),
            tensor.data@.len() % 4 != 0 ==> r is Err,
            final(self).state == old(self).state,
    {
        match Self::writing(self.state.write()) {
            Ok(mut guard) => {
                let state: &mut State = held_mut(&mut guard);
                state.set_input(ctx, index, tensor)
            },
            Err(e) => Err(e),
        }
    }

    /// `State::compute_with` under the write lock: the engine given is asked the
    /// question of the session under `ctx`, and its answer is stored. The lock
    /// is held while the engine runs, so no other caller is served meanwhile;
    /// an engine that ended abnormally there would poison the lock, so the
    /// engine given must be guarded against that.
    ///
    /// A poisoned lock is answered with `RuntimeError`, the only error there
    /// is. Every other answer is that of `State::compute_with` on the registry
    /// as the lock held it: a success stores the outcome that the engine gave
    /// to the question of that session.
    pub fn compute<F>(&mut self, ctx: u32, engine: F) -> (r: Result<(), Error>) where
        F: FnOnce(Question) -> Result<Vec<Tensor>, TractError>,

        requires
            forall|question: Question| #[trigger] engine.requires((question,)),
        ensures
            r is Err ==> r->Err_0 == Error::RuntimeError,
            r is Ok ==> exists|
                pre: StateView,
                post: StateView,
                question: Question,
                outcome: Result<Vec<Tensor>, TractError>,
            |
                {
                    &&& State::asked(pre, ctx, Ok(question))
                    &&& #[trigger] engine.ensures((question,), outcome)
                    &&& #[trigger] State::computed(pre, ctx, answer_of(outcome), post, r)
                },
            final(self).state == old(self).state,
    {
        match Self::writing(self.state.write()) {
            Ok(mut guard) => {
                let state: &mut State = held_mut(&mut guard);
                state.compute_with(ctx, engine)
            },
            Err(e) => Err(e),
        }
    }

    /// `State::get_output` under the read lock. A poisoned lock is answered with
    /// `RuntimeError`, the only error there is. Every other answer is that of
    /// `State::get_output` on the registry as the lock held it.
    pub fn get_output(&mut self, ctx: u32, index: u32) -> (r: Result<TensorResult, Error>)
        ensures
            r is Err ==> r->Err_0 == Error::RuntimeError,
            r is Ok ==> exists|state: StateView| State::output_read(state, ctx, index, r),
            final(self).state == old(self).state,
    {
        match Self::reading(self.state.read()) {
            Ok(guard) => {
                let state: &State = held(&guard);
                state.get_output(ctx, index)
            },
            Err(e) => Err(e),
        }
    }
}

} // verus!

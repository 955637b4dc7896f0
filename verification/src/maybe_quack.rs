//! The wrapper every generated object is built around.

use crate::quack::{consume_outcome, consumed, installed, MethodIdentity, MockError, Quack};
use vstd::prelude::*;

verus! {

/// Either the real value or a registry of answers standing in for it. Which
/// of the two is settled when the wrapper is made and never changes.
pub enum MaybeQuack<T, A> {
    Real(T),
    Quack(Quack<A>),
}

impl<T, A> MaybeQuack<T, A> {
    /// The answers waiting in this wrapper. A real instance has none.
    pub open spec fn answers(&self) -> Map<MethodIdentity, A> {
        match self {
            MaybeQuack::Real(_) => Map::empty(),
            MaybeQuack::Quack(quack) => quack@,
        }
    }

    /// Wraps a real value.
    pub fn from_real(value: T) -> (wrapper: Self)
        ensures
            wrapper == MaybeQuack::<T, A>::Real(value),
    {
        MaybeQuack::Real(value)
    }

    /// A stand-in with nothing filed yet.
    pub fn quack() -> (wrapper: Self)
        ensures
            wrapper is Quack,
            wrapper.answers() == Map::<MethodIdentity, A>::empty(),
    {
        MaybeQuack::Quack(Quack::default())
    }

    /// Whether this wrapper holds the real value.
    pub fn is_real(&self) -> (real_mode: bool)
        ensures
            real_mode == (self is Real),
    {
        match self {
            MaybeQuack::Real(_) => true,
            MaybeQuack::Quack(_) => false,
        }
    }

    /// Files `mock` under `id` in a stand-in's registry; an answer already
    /// waiting there is dropped unused.
    ///
    /// A real instance takes no answers, so the caller has to hold a
    /// stand-in. Code that is not verified and hands in a real instance
    /// anyway is stopped here; the call is never quietly ignored.
    pub fn mock_once(&mut self, id: MethodIdentity, mock: A)
        requires
            *old(self) is Quack,
        ensures
            *final(self) is Quack,
            final(self).answers() == installed(old(self).answers(), id, mock),
    {
        match self {
            MaybeQuack::Quack(quack) => quack.mock_once(id, mock),
            MaybeQuack::Real(_) => vstd::pervasive::unreached(),
        }
    }

    /// Routes one call. A real instance runs `real_logic` on the wrapped
    /// value and stays as it is. A stand-in takes the answer filed under
    /// `id` out of its registry and has `call_answer` run it on `input`;
    /// with nothing filed there it reports so and keeps its registry
    /// unchanged.
    ///
    /// `call_answer` is where the caller recovers the answer's own type: its
    /// precondition says which answers it can run, so an answer of the wrong
    /// shape under `id` is ruled out before the call, not discovered in it.
    pub fn dispatch<I, O, R, C>(
        &mut self,
        id: MethodIdentity,
        input: I,
        real_logic: R,
        call_answer: C,
    ) -> (outcome: Result<O, MockError>) where R: FnOnce(&T, I) -> O, C: FnOnce(A, I) -> O
        requires
            dispatch_allowed(*old(self), id, input, real_logic, call_answer),
        ensures
            dispatch_outcome(*old(self), id, input, real_logic, call_answer, *final(self), outcome),
    {
        match self {
            MaybeQuack::Real(value) => Ok(real_logic(value, input)),
            MaybeQuack::Quack(quack) => match quack.consume(id) {
                Ok(answer) => Ok(call_answer(answer, input)),
                Err(missing) => Err(missing),
            },
        }
    }
}

/// What a caller of `dispatch` owes: the logic that is going to run accepts
/// what it will be given. For a real instance that is `real_logic` on the
/// wrapped value and the input; for a stand-in it is `call_answer` on the
/// answer waiting under `id`, if there is one, and the input.
pub open spec fn dispatch_allowed<T, A, I, O, R, C>(
    before: MaybeQuack<T, A>,
    id: MethodIdentity,
    input: I,
    real_logic: R,
    call_answer: C,
) -> bool where R: FnOnce(&T, I) -> O, C: FnOnce(A, I) -> O {
    match before {
        MaybeQuack::Real(value) => real_logic.requires((&value, input)),
        MaybeQuack::Quack(quack) => quack@.contains_key(id) ==> call_answer.requires(
            (quack@[id], input),
        ),
    }
}

/// How one routed call relates the wrapper before it, the wrapper after it
/// and what the call returned.
pub open spec fn dispatch_outcome<T, A, I, O, R, C>(
    before: MaybeQuack<T, A>,
    id: MethodIdentity,
    input: I,
    real_logic: R,
    call_answer: C,
    after: MaybeQuack<T, A>,
    outcome: Result<O, MockError>,
) -> bool where R: FnOnce(&T, I) -> O, C: FnOnce(A, I) -> O {
    match before {
        MaybeQuack::Real(value) => {
            &&& after == before
            &&& outcome is Ok
            &&& real_logic.ensures((&value, input), outcome->Ok_0)
        },
        MaybeQuack::Quack(quack) => {
            &&& after is Quack
            &&& after.answers() == consumed(quack@, id)
            &&& match consume_outcome(quack@, id) {
                Ok(answer) => outcome is Ok && call_answer.ensures(
                    (answer, input),
                    outcome->Ok_0,
                ),
                Err(missing) => outcome == Err::<O, MockError>(missing),
            }
        },
    }
}

} // verus!

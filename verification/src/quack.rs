//! The registry: one single-use answer per method identity.

use std::collections::HashMap;
use vstd::prelude::*;

verus! {

broadcast use vstd::std_specs::hash::group_hash_axioms;

/// The key one method's answers are filed under.
///
/// Two identities are the same exactly when their tokens are; whoever mints
/// the tokens has to give distinct methods distinct ones.
#[derive(Clone, Copy, Debug, PartialEq, Eq, Structural, Hash)]
pub struct MethodIdentity {
    pub token: u64,
}

/// Why a call could not be answered.
#[derive(Clone, Copy, Debug, PartialEq, Eq, Structural)]
pub enum MockError {
    /// Nothing is filed under the identity that was asked for.
    NoAnswerRegistered,
}

/// What a registry holds once `answer` has been filed under `id`: the new
/// answer takes the slot, whatever was there before.
pub open spec fn installed<A>(entries: Map<MethodIdentity, A>, id: MethodIdentity, answer: A) -> Map<
    MethodIdentity,
    A,
> {
    entries.insert(id, answer)
}

/// What asking a registry for the answer at `id` hands out.
pub open spec fn consume_outcome<A>(entries: Map<MethodIdentity, A>, id: MethodIdentity) -> Result<
    A,
    MockError,
> {
    if entries.contains_key(id) {
        Ok(entries[id])
    } else {
        Err(MockError::NoAnswerRegistered)
    }
}

/// What a registry holds after it was asked for the answer at `id`: the slot
/// is empty, every other slot is as it was.
pub open spec fn consumed<A>(entries: Map<MethodIdentity, A>, id: MethodIdentity) -> Map<
    MethodIdentity,
    A,
> {
    entries.remove(id)
}

/// A store of answers, at most one per method identity. An answer is owned by
/// the store from the moment it is filed until it is handed out, and it is
/// handed out once.
pub struct Quack<A> {
    one_time_mocks: HashMap<u64, A>,
}

impl<A> View for Quack<A> {
    type V = Map<MethodIdentity, A>;

    closed spec fn view(&self) -> Map<MethodIdentity, A> {
        Map::new(
            |id: MethodIdentity| self.one_time_mocks@.contains_key(id.token),
            |id: MethodIdentity| self.one_time_mocks@[id.token],
        )
    }
}

impl<A> Default for Quack<A> {
    fn default() -> (quack: Self)
        ensures
            quack@ == Map::<MethodIdentity, A>::empty(),
    {
        Quack::new()
    }
}

impl<A> Quack<A> {
    /// A registry with nothing filed.
    pub fn new() -> (quack: Self)
        ensures
            quack@ == Map::<MethodIdentity, A>::empty(),
    {
        let quack = Quack { one_time_mocks: HashMap::new() };
        assert(quack@ =~= Map::<MethodIdentity, A>::empty());
        quack
    }

    /// Whether an answer is waiting under `id`.
    pub fn is_mocked(&self, id: MethodIdentity) -> (mocked: bool)
        ensures
            mocked == self@.contains_key(id),
    {
        self.one_time_mocks.contains_key(&id.token)
    }

    /// Files `mock` under `id`. An answer already waiting there is dropped
    /// unused.
    pub fn mock_once(&mut self, id: MethodIdentity, mock: A)
        ensures
            final(self)@ == installed(old(self)@, id, mock),
    {
        self.one_time_mocks.insert(id.token, mock);
        assert(self@ =~= installed(old(self)@, id, mock));
    }

    /// Takes the answer filed under `id` out of the registry, or reports that
    /// there is none and leaves the registry as it was.
    pub fn consume(&mut self, id: MethodIdentity) -> (outcome: Result<A, MockError>)
        ensures
            outcome == consume_outcome(old(self)@, id),
            final(self)@ == consumed(old(self)@, id),
    {
        let taken = self.one_time_mocks.remove(&id.token);
        assert(self@ =~= consumed(old(self)@, id));
        match taken {
            Some(answer) => Ok(answer),
            None => Err(MockError::NoAnswerRegistered),
        }
    }
}

} // verus!

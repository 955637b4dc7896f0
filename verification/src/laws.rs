//! What holds of every registry and every wrapper, whatever was filed and
//! whatever was asked for.

use crate::maybe_quack::{dispatch_outcome, MaybeQuack};
use crate::quack::{consume_outcome, consumed, installed, MethodIdentity, MockError};
use vstd::prelude::*;

verus! {

/// An answer that was filed is the answer that is handed out, and it is
/// handed out once: asking again for the same identity finds nothing.
pub proof fn lemma_install_then_consume<A>(
    entries: Map<MethodIdentity, A>,
    id: MethodIdentity,
    answer: A,
)
    ensures
        consume_outcome(installed(entries, id, answer), id) == Ok::<A, MockError>(answer),
        consume_outcome(consumed(installed(entries, id, answer), id), id) == Err::<A, MockError>(
            MockError::NoAnswerRegistered,
        ),
{
}

/// Asking for an identity empties its slot, whether or not anything was
/// there: the next request for it finds nothing.
pub proof fn lemma_consume_is_once<A>(entries: Map<MethodIdentity, A>, id: MethodIdentity)
    ensures
        consume_outcome(consumed(entries, id), id) == Err::<A, MockError>(
            MockError::NoAnswerRegistered,
        ),
        !consumed(entries, id).contains_key(id),
{
}

/// Asking for an identity that has no answer changes nothing.
pub proof fn lemma_failed_consume_keeps_registry<A>(
    entries: Map<MethodIdentity, A>,
    id: MethodIdentity,
)
    requires
        consume_outcome(entries, id) is Err,
    ensures
        consumed(entries, id) == entries,
{
    assert(consumed(entries, id) =~= entries);
}

/// The last answer filed under an identity wins: it is the one handed out,
/// and the registry is the one that never saw the earlier answer.
pub proof fn lemma_last_install_wins<A>(
    entries: Map<MethodIdentity, A>,
    id: MethodIdentity,
    first: A,
    second: A,
)
    ensures
        consume_outcome(installed(installed(entries, id, first), id, second), id) == Ok::<
            A,
            MockError,
        >(second),
        installed(installed(entries, id, first), id, second) == installed(entries, id, second),
{
    assert(installed(installed(entries, id, first), id, second) =~= installed(
        entries,
        id,
        second,
    ));
}

/// Filing an answer under one identity leaves every other identity's slot
/// as it was.
pub proof fn lemma_install_leaves_others<A>(
    entries: Map<MethodIdentity, A>,
    id: MethodIdentity,
    answer: A,
    other: MethodIdentity,
)
    requires
        other != id,
    ensures
        installed(entries, id, answer).contains_key(other) == entries.contains_key(other),
        consume_outcome(installed(entries, id, answer), other) == consume_outcome(entries, other),
        consumed(installed(entries, id, answer), other) == installed(
            consumed(entries, other),
            id,
            answer,
        ),
{
    assert(consumed(installed(entries, id, answer), other) =~= installed(
        consumed(entries, other),
        id,
        answer,
    ));
}

/// Taking the answer of one identity leaves every other identity's slot as
/// it was.
pub proof fn lemma_consume_leaves_others<A>(
    entries: Map<MethodIdentity, A>,
    id: MethodIdentity,
    other: MethodIdentity,
)
    requires
        other != id,
    ensures
        consumed(entries, id).contains_key(other) == entries.contains_key(other),
        consume_outcome(consumed(entries, id), other) == consume_outcome(entries, other),
        consumed(consumed(entries, id), other) == consumed(consumed(entries, other), id),
{
    assert(consumed(consumed(entries, id), other) =~= consumed(consumed(entries, other), id));
}

/// A real instance answers from its own logic alone. It holds no registry,
/// the identity that is asked for and the way answers are run play no part,
/// the call always succeeds with what the real logic returns, and the
/// instance is left as it was.
pub proof fn lemma_real_dispatch_runs_real_logic<T, A, I, O, R, C>(
    value: T,
    id: MethodIdentity,
    input: I,
    real_logic: R,
    call_answer: C,
    after: MaybeQuack<T, A>,
    outcome: Result<O, MockError>,
) where R: FnOnce(&T, I) -> O, C: FnOnce(A, I) -> O
    ensures
        MaybeQuack::<T, A>::Real(value).answers() == Map::<MethodIdentity, A>::empty(),
        dispatch_outcome(
            MaybeQuack::<T, A>::Real(value),
            id,
            input,
            real_logic,
            call_answer,
            after,
            outcome,
        ) <==> {
            &&& after == MaybeQuack::<T, A>::Real(value)
            &&& outcome is Ok
            &&& real_logic.ensures((&value, input), outcome->Ok_0)
        },
{
}

/// A stand-in's call is decided by its registry alone: with an answer filed
/// under the identity the call succeeds with what running that answer
/// returns and the slot is emptied; with none it fails, and nothing changes.
/// Every other identity keeps its answer. The real logic plays no part.
pub proof fn lemma_standin_dispatch_runs_answer<T, A, I, O, R, C>(
    before: MaybeQuack<T, A>,
    id: MethodIdentity,
    input: I,
    real_logic: R,
    call_answer: C,
    after: MaybeQuack<T, A>,
    outcome: Result<O, MockError>,
) where R: FnOnce(&T, I) -> O, C: FnOnce(A, I) -> O
    requires
        before is Quack,
        dispatch_outcome(before, id, input, real_logic, call_answer, after, outcome),
    ensures
        after is Quack,
        !after.answers().contains_key(id),
        before.answers().contains_key(id) ==> outcome is Ok && call_answer.ensures(
            (before.answers()[id], input),
            outcome->Ok_0,
        ),
        !before.answers().contains_key(id) ==> outcome == Err::<O, MockError>(
            MockError::NoAnswerRegistered,
        ) && after.answers() == before.answers(),
        forall|other: MethodIdentity|
            other != id ==> after.answers().contains_key(other) == before.answers().contains_key(
                other,
            ),
        forall|other: MethodIdentity|
            other != id && before.answers().contains_key(other) ==> after.answers()[other]
                == before.answers()[other],
{
    if !before.answers().contains_key(id) {
        lemma_failed_consume_keeps_registry(before.answers(), id);
    }
}

/// Whether a wrapper is real or a stand-in is settled for good: no call
/// turns one into the other.
pub proof fn lemma_dispatch_keeps_mode<T, A, I, O, R, C>(
    before: MaybeQuack<T, A>,
    id: MethodIdentity,
    input: I,
    real_logic: R,
    call_answer: C,
    after: MaybeQuack<T, A>,
    outcome: Result<O, MockError>,
) where R: FnOnce(&T, I) -> O, C: FnOnce(A, I) -> O
    requires
        dispatch_outcome(before, id, input, real_logic, call_answer, after, outcome),
    ensures
        after is Real <==> before is Real,
        after is Quack <==> before is Quack,
{
}

/// An answer filed in a stand-in serves the next call of its identity and
/// no call after that: the first call returns what running the answer
/// returns, the second finds nothing, and the registry ends as it would
/// have been without the answer.
pub proof fn lemma_filed_answer_serves_one_call<T, A, I, O, R1, C1, R2, C2>(
    before: MaybeQuack<T, A>,
    id: MethodIdentity,
    answer: A,
    filed: MaybeQuack<T, A>,
    first_input: I,
    first_real_logic: R1,
    first_call_answer: C1,
    served: MaybeQuack<T, A>,
    first: Result<O, MockError>,
    second_input: I,
    second_real_logic: R2,
    second_call_answer: C2,
    after: MaybeQuack<T, A>,
    second: Result<O, MockError>,
) where
    R1: FnOnce(&T, I) -> O,
    C1: FnOnce(A, I) -> O,
    R2: FnOnce(&T, I) -> O,
    C2: FnOnce(A, I) -> O,

    requires
        before is Quack,
        filed is Quack,
        filed.answers() == installed(before.answers(), id, answer),
        dispatch_outcome(
            filed,
            id,
            first_input,
            first_real_logic,
            first_call_answer,
            served,
            first,
        ),
        dispatch_outcome(
            served,
            id,
            second_input,
            second_real_logic,
            second_call_answer,
            after,
            second,
        ),
    ensures
        first is Ok,
        first_call_answer.ensures((answer, first_input), first->Ok_0),
        second == Err::<O, MockError>(MockError::NoAnswerRegistered),
        served.answers() == consumed(before.answers(), id),
        after.answers() == served.answers(),
{
    assert(consumed(installed(before.answers(), id, answer), id) =~= consumed(
        before.answers(),
        id,
    ));
    lemma_failed_consume_keeps_registry(served.answers(), id);
}

} // verus!

use vstd::prelude::*;
use crate::chat::{
    next_step, repaired_system, request_for, session_after, session_after_failure, AttemptError,
    CompletionMode, Next, RetryState, SessionError, SessionView, JSON_REPAIR_PREAMBLE,
    MAX_ATTEMPTS, RAW_REPAIR_PREAMBLE,
};
use crate::prompt::ModelProvider;

verus! {

/// The retry-and-repair loop run from `state` over the outcomes of its
/// attempts (that of attempt `i` at index `i`), each step as
/// `ChatAsync::advance` takes it: the step it stops at, the session it leaves,
/// and how many attempts it has made. Where the outcomes run out first, it
/// stops at `Retry`.
pub open spec fn run_loop<T>(
    s: SessionView,
    state: RetryState,
    mode: CompletionMode,
    outcomes: Seq<Result<T, AttemptError>>,
) -> (Next<T>, SessionView, nat)
    decreases MAX_ATTEMPTS - state.attempt,
{
    if state.attempt >= MAX_ATTEMPTS || state.attempt >= outcomes.len() {
        (Next::Retry(state), s, state.attempt as nat)
    } else {
        let outcome = outcomes[state.attempt as int];
        let after = session_after(s, state, mode, outcome);
        match next_step(state, outcome) {
            Next::Retry(next) => run_loop(after, next, mode, outcomes),
            step => (step, after, (state.attempt + 1) as nat),
        }
    }
}

/// The state the loop starts from.
pub open spec fn initial_state() -> RetryState {
    RetryState { attempt: 0, repaired: false }
}

proof fn lemma_preambles_nonempty()
    ensures
        JSON_REPAIR_PREAMBLE@.len() > 0,
        RAW_REPAIR_PREAMBLE@.len() > 0,
{
    reveal_strlit("You are being invoked again because a previous attempt failed: its answer could not be read as the JSON described below. Follow the JSON format described there precisely, and answer with that JSON alone.\n\nYour instructions follow:\n\n");
    reveal_strlit("You are being invoked again because a previous attempt failed. Review the instructions below carefully, follow their format precisely, and respond accurately.\n\nYour instructions follow:\n\n");
}


/// The rewrite changes the system message, on either path.
pub proof fn lemma_repair_changes_system(mode: CompletionMode, instructions: Seq<char>)
    ensures
        repaired_system(mode, instructions) != instructions,
        repaired_system(mode, instructions).len() > instructions.len(),
{
    lemma_preambles_nonempty();
}

proof fn lemma_failing_from<T>(
    s: SessionView,
    state: RetryState,
    mode: CompletionMode,
    outcomes: Seq<Result<T, AttemptError>>,
)
    requires
        state.wf(),
        forall|i: int| 0 <= i < outcomes.len() ==> (#[trigger] outcomes[i]) is Err,
    ensures
        outcomes.len() >= MAX_ATTEMPTS ==> run_loop(s, state, mode, outcomes) == (
            Next::<T>::Exhausted(
                SessionError::Exhausted {
                    attempts: MAX_ATTEMPTS,
                    last_error: outcomes[MAX_ATTEMPTS - 1]->Err_0,
                },
            ),
            session_after_failure(s, state, mode),
            MAX_ATTEMPTS as nat,
        ),
        run_loop(s, state, mode, outcomes).1 == if state.attempt < outcomes.len() {
            session_after_failure(s, state, mode)
        } else {
            s
        },
    decreases MAX_ATTEMPTS - state.attempt,
{
    if state.attempt < outcomes.len() {
        let outcome = outcomes[state.attempt as int];
        let after = session_after(s, state, mode, outcome);
        assert(outcome is Err);
        if state.attempt + 1 < MAX_ATTEMPTS {
            let next = RetryState { attempt: (state.attempt + 1) as u32, repaired: true };
            lemma_failing_from(after, next, mode, outcomes);
        }
    }
}

/// An operation that fails on every attempt: the loop stops at `Exhausted`
/// after exactly `MAX_ATTEMPTS` attempts, reporting that count and the last
/// failure. The system message is rewritten once, after the first failure:
/// before every later attempt, and at the end, it is the rewritten one.
pub proof fn lemma_always_failing<T>(
    s: SessionView,
    mode: CompletionMode,
    outcomes: Seq<Result<T, AttemptError>>,
)
    requires
        s.wf(),
        outcomes.len() >= MAX_ATTEMPTS,
        forall|i: int| 0 <= i < outcomes.len() ==> (#[trigger] outcomes[i]) is Err,
    ensures
        run_loop(s, initial_state(), mode, outcomes) == (
            Next::<T>::Exhausted(
                SessionError::Exhausted {
                    attempts: MAX_ATTEMPTS,
                    last_error: outcomes[MAX_ATTEMPTS - 1]->Err_0,
                },
            ),
            s.with_system(repaired_system(mode, s.system())),
            MAX_ATTEMPTS as nat,
        ),
        run_loop(s, initial_state(), mode, outcomes.take(0)).1 == s,
        forall|k: int|
            1 <= k <= MAX_ATTEMPTS ==> (#[trigger] run_loop(
                s,
                initial_state(),
                mode,
                outcomes.take(k),
            )).1 == s.with_system(repaired_system(mode, s.system())),
        s.with_system(repaired_system(mode, s.system())).system() != s.system(),
{
    lemma_failing_from(s, initial_state(), mode, outcomes);
    lemma_failing_from(s, initial_state(), mode, outcomes.take(0));
    assert forall|k: int| 1 <= k <= MAX_ATTEMPTS implies (#[trigger] run_loop(
        s,
        initial_state(),
        mode,
        outcomes.take(k),
    )).1 == s.with_system(repaired_system(mode, s.system())) by {
        lemma_failing_from(s, initial_state(), mode, outcomes.take(k));
    }
    lemma_repair_changes_system(mode, s.system());
}

proof fn lemma_succeeding_from<T>(
    s: SessionView,
    state: RetryState,
    mode: CompletionMode,
    outcomes: Seq<Result<T, AttemptError>>,
    k: int,
)
    requires
        state.wf(),
        state.attempt < k <= MAX_ATTEMPTS,
        k <= outcomes.len(),
        forall|i: int| 0 <= i < k - 1 ==> (#[trigger] outcomes[i]) is Err,
        outcomes[k - 1] is Ok,
    ensures
        run_loop(s, state, mode, outcomes).0 == Next::<T>::Done(outcomes[k - 1]->Ok_0),
        run_loop(s, state, mode, outcomes).2 == k,
    decreases MAX_ATTEMPTS - state.attempt,
{
    let outcome = outcomes[state.attempt as int];
    let after = session_after(s, state, mode, outcome);
    if state.attempt + 1 < k {
        assert(outcome is Err);
        let next = RetryState { attempt: (state.attempt + 1) as u32, repaired: true };
        lemma_succeeding_from(after, next, mode, outcomes, k);
    }
}

/// An operation that first succeeds on attempt `k` (counting from one, with
/// `k <= MAX_ATTEMPTS`): the loop makes exactly `k` attempts and stops with the
/// value of attempt `k`, whatever later attempts would have returned.
pub proof fn lemma_succeeds_on_attempt<T>(
    s: SessionView,
    mode: CompletionMode,
    outcomes: Seq<Result<T, AttemptError>>,
    k: int,
)
    requires
        s.wf(),
        1 <= k <= MAX_ATTEMPTS,
        k <= outcomes.len(),
        forall|i: int| 0 <= i < k - 1 ==> (#[trigger] outcomes[i]) is Err,
        outcomes[k - 1] is Ok,
    ensures
        run_loop(s, initial_state(), mode, outcomes).0 == Next::<T>::Done(outcomes[k - 1]->Ok_0),
        run_loop(s, initial_state(), mode, outcomes).2 == k,
{
    lemma_succeeding_from(s, initial_state(), mode, outcomes, k);
}

/// A response with no choice, or whose first choice holds no text, is a failure
/// like any other: short of the last attempt the loop asks for another one.
pub proof fn lemma_malformed_response_is_retried<T>(state: RetryState, error: AttemptError)
    requires
        state.wf(),
        error is MissingChoice || error is MissingContent,
        state.attempt + 1 < MAX_ATTEMPTS,
    ensures
        next_step(state, Err::<T, AttemptError>(error)) == Next::<T>::Retry(
            RetryState { attempt: (state.attempt + 1) as u32, repaired: true },
        ),
{
}

/// For the same messages and model, a request to OpenAI carries the
/// JSON-object flag and one to Mistral does not, on either path; nothing else
/// differs between the two.
pub proof fn lemma_json_flag_follows_provider(
    a: SessionView,
    b: SessionView,
    mode: CompletionMode,
)
    requires
        a.messages == b.messages,
        a.model == b.model,
        a.provider == ModelProvider::OpenAi,
        b.provider == ModelProvider::Mistral,
    ensures
        request_for(a, mode).json_object,
        !request_for(b, mode).json_object,
        request_for(a, mode).messages == request_for(b, mode).messages,
        request_for(a, mode).model == request_for(b, mode).model,
        request_for(a, mode).stream == request_for(b, mode).stream,
        request_for(a, mode).temperature_hundredths == request_for(b, mode).temperature_hundredths,
{
}

} // verus!

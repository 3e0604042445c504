//! The stubborn-retry policy: retry forever, fixed delay, log on failure.
//!
//! The policy itself is stateless. What it guarantees of a run is captured
//! by [`stubborn_post`]: the returned value is the response of the first
//! successful attempt, every earlier attempt failed, and each failed
//! attempt produced exactly one diagnostic entry and one fixed-length
//! suspension. [`bounded_post`] is the analogue for a run that gives up
//! after a caller-chosen number of attempts, which is how a harness can
//! observe "no success within N attempts" without waiting forever.

use crate::error::QueryError;
use vstd::prelude::*;

verus! {

/// The fixed delay, in seconds, between retry attempts.
pub const RETRY_TIME_SECONDS: u64 = 5;

/// The ghost record of one attempt: the value returned, or the failure
/// detail text.
pub open spec fn outcome_of<V>(r: Result<V, QueryError>) -> Result<V, Seq<char>> {
    match r {
        Ok(v) => Ok(v),
        Err(e) => Err(e.detail@),
    }
}

/// The per-failure diagnostic of an operation that logs one fixed text,
/// whatever the failure detail was.
pub open spec fn fixed_entry(text: Seq<char>) -> spec_fn(Seq<char>) -> Seq<char> {
    |detail: Seq<char>| text
}

/// What a completed stubborn run guarantees, stated over the endpoint's
/// attempt history, the diagnostic entries and the suspensions, each taken
/// before and after the run.
///
/// If the k-th attempt of the run is the first to succeed, then: the run
/// made exactly k attempts and no more, `value` is the k-th response, and
/// exactly k - 1 diagnostic entries and k - 1 suspensions of the fixed
/// length were produced, one per failed attempt, in order. `message_of`
/// maps a failure detail to the entry logged for it.
pub open spec fn stubborn_post<V>(
    before: Seq<Result<V, Seq<char>>>,
    after: Seq<Result<V, Seq<char>>>,
    logs_before: Seq<Seq<char>>,
    logs_after: Seq<Seq<char>>,
    waits_before: Seq<u64>,
    waits_after: Seq<u64>,
    message_of: spec_fn(Seq<char>) -> Seq<char>,
    value: V,
) -> bool {
    let attempts = after.len() - before.len();
    &&& after.len() > before.len()
    &&& after.subrange(0, before.len() as int) == before
    &&& (forall|i: int| before.len() <= i < after.len() - 1 ==> after[i] is Err)
    &&& after.last() == Ok::<V, Seq<char>>(value)
    &&& logs_after == logs_before + Seq::new(
        (attempts - 1) as nat,
        (|i: int| message_of(after[before.len() + i]->Err_0)),
    )
    &&& waits_after == waits_before + Seq::new((attempts - 1) as nat, (|i: int| RETRY_TIME_SECONDS))
}

/// What a bounded run guarantees: on success it behaves exactly as the
/// stubborn run does, within the attempt budget; when every attempt in the
/// budget fails it returns nothing, having made exactly `max_attempts`
/// attempts, each failure followed by its diagnostic entry and its
/// fixed-length suspension, exactly as in a stubborn run that has not yet
/// reached a success.
pub open spec fn bounded_post<V>(
    before: Seq<Result<V, Seq<char>>>,
    after: Seq<Result<V, Seq<char>>>,
    logs_before: Seq<Seq<char>>,
    logs_after: Seq<Seq<char>>,
    waits_before: Seq<u64>,
    waits_after: Seq<u64>,
    message_of: spec_fn(Seq<char>) -> Seq<char>,
    max_attempts: u64,
    outcome: Option<V>,
) -> bool {
    match outcome {
        Some(value) => {
            &&& stubborn_post(
                before,
                after,
                logs_before,
                logs_after,
                waits_before,
                waits_after,
                message_of,
                value,
            )
            &&& after.len() - before.len() <= max_attempts
        },
        None => {
            &&& after.len() == before.len() + max_attempts
            &&& after.subrange(0, before.len() as int) == before
            &&& (forall|i: int| before.len() <= i < after.len() ==> after[i] is Err)
            &&& logs_after == logs_before + Seq::new(
                max_attempts as nat,
                (|i: int| message_of(after[before.len() + i]->Err_0)),
            )
            &&& waits_after == waits_before + Seq::new(
                max_attempts as nat,
                (|i: int| RETRY_TIME_SECONDS),
            )
        },
    }
}

/// When the k-th underlying attempt of a stubborn run is the first to
/// succeed, the run returns that attempt's value after exactly k - 1
/// diagnostic entries and k - 1 suspensions of the fixed length.
pub proof fn lemma_first_success_counts<V>(
    before: Seq<Result<V, Seq<char>>>,
    after: Seq<Result<V, Seq<char>>>,
    logs_before: Seq<Seq<char>>,
    logs_after: Seq<Seq<char>>,
    waits_before: Seq<u64>,
    waits_after: Seq<u64>,
    message_of: spec_fn(Seq<char>) -> Seq<char>,
    value: V,
)
    requires
        stubborn_post(
            before,
            after,
            logs_before,
            logs_after,
            waits_before,
            waits_after,
            message_of,
            value,
        ),
    ensures
        ({
            let k = after.len() - before.len();
            &&& k >= 1
            &&& after[before.len() + k - 1] == Ok::<V, Seq<char>>(value)
            &&& (forall|j: int| before.len() <= j < before.len() + k - 1 ==> after[j] is Err)
            &&& logs_after.len() == logs_before.len() + k - 1
            &&& waits_after.len() == waits_before.len() + k - 1
            &&& (forall|j: int|
                waits_before.len() <= j < waits_after.len() ==> waits_after[j]
                    == RETRY_TIME_SECONDS)
        }),
{
}

/// A run whose underlying operation succeeded on every attempt it made
/// consists of a single attempt: the value is returned at once, with no
/// diagnostic entry and no suspension.
pub proof fn lemma_immediate_success<V>(
    before: Seq<Result<V, Seq<char>>>,
    after: Seq<Result<V, Seq<char>>>,
    logs_before: Seq<Seq<char>>,
    logs_after: Seq<Seq<char>>,
    waits_before: Seq<u64>,
    waits_after: Seq<u64>,
    message_of: spec_fn(Seq<char>) -> Seq<char>,
    value: V,
)
    requires
        stubborn_post(
            before,
            after,
            logs_before,
            logs_after,
            waits_before,
            waits_after,
            message_of,
            value,
        ),
        forall|i: int| before.len() <= i < after.len() ==> !(after[i] is Err),
    ensures
        after.len() == before.len() + 1,
        after.last() == Ok::<V, Seq<char>>(value),
        logs_after == logs_before,
        waits_after == waits_before,
{
    assert(after.len() == before.len() + 1) by {
        if after.len() > before.len() + 1 {
            assert(after[before.len() as int] is Err);
        }
    }
    assert(logs_after =~= logs_before);
    assert(waits_after =~= waits_before);
}

} // verus!

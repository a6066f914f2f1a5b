//! Failover across the members of a cluster: the members are tried strictly in order
//! until one gives an answer that is not a transport failure.
//!
//! The decisions stand here; the caller performs each attempt and hands its result to
//! [`failover_step`], which says whether to try another member or to finish.
use vstd::prelude::*;

use crate::error::Error;
use crate::requester::Response;

verus! {

/// What to do after an attempt.
#[derive(Debug)]
pub enum Decision<T> {
    /// Try the member at this position next.
    Try(usize),
    /// Stop and hand this result to the caller.
    Finish(Result<Response<T>, Error>),
}

/// Whether a result ends the failover: anything but a transport failure does.
pub open spec fn settles<T>(outcome: Result<Response<T>, Error>) -> bool {
    !(outcome matches Err(e) && e is Transport)
}

/// The decision after `attempted` members have been tried, the last of them giving
/// `outcome`.
pub open spec fn next_decision<T>(
    endpoint_count: nat,
    attempted: nat,
    outcome: Result<Response<T>, Error>,
) -> Decision<T> {
    if settles(outcome) || attempted >= endpoint_count {
        Decision::Finish(outcome)
    } else {
        Decision::Try(attempted as usize)
    }
}

/// Decides what follows an attempt. `attempted` counts the members tried so far, the
/// one that gave `outcome` included. A success or an error other than a transport
/// failure is returned at once; a transport failure moves on to the next member, and
/// on the last member it is returned.
pub fn failover_step<T>(
    endpoint_count: usize,
    attempted: usize,
    outcome: Result<Response<T>, Error>,
) -> (r: Decision<T>)
    ensures
        r == next_decision(endpoint_count as nat, attempted as nat, outcome),
{
    let transport = match &outcome {
        Err(e) => e.is_transport(),
        Ok(_) => false,
    };
    if !transport || attempted >= endpoint_count {
        Decision::Finish(outcome)
    } else {
        Decision::Try(attempted)
    }
}

/// The result and the number of attempts of a failover that starts at the member at
/// position `i`, where `outcomes[k]` is what the member at position `k` gives.
pub open spec fn run_from<T>(outcomes: Seq<Result<Response<T>, Error>>, i: nat) -> (
    Result<Response<T>, Error>,
    nat,
)
    decreases outcomes.len() - i,
{
    if i + 1 >= outcomes.len() {
        (outcomes[i as int], i + 1)
    } else {
        match next_decision(outcomes.len(), i + 1, outcomes[i as int]) {
            Decision::Finish(r) => (r, i + 1),
            Decision::Try(j) => if j as nat == i + 1 {
                run_from(outcomes, i + 1)
            } else {
                (outcomes[i as int], i + 1)
            },
        }
    }
}

/// The result and the number of attempts of a failover over members that give
/// `outcomes`, in order.
pub open spec fn failover_run<T>(outcomes: Seq<Result<Response<T>, Error>>) -> (
    Result<Response<T>, Error>,
    nat,
) {
    run_from(outcomes, 0)
}

/// Whether a result is a transport failure.
pub open spec fn is_transport_failure<T>(outcome: Result<Response<T>, Error>) -> bool {
    outcome matches Err(e) && e is Transport
}

proof fn lemma_run_reaches<T>(outcomes: Seq<Result<Response<T>, Error>>, i: nat, k: nat)
    requires
        i <= k < outcomes.len(),
        outcomes.len() <= usize::MAX,
        forall|j: int| i <= j < k ==> is_transport_failure(#[trigger] outcomes[j]),
        settles(outcomes[k as int]) || k + 1 == outcomes.len(),
    ensures
        run_from(outcomes, i) == (outcomes[k as int], k + 1),
    decreases k - i,
{
    if i < k {
        assert(is_transport_failure(outcomes[i as int]));
        lemma_run_reaches(outcomes, i + 1, k);
    }
}

/// The failover returns the result of the first member whose result is not a transport
/// failure, after trying exactly the members up to it; no member after it is tried.
pub proof fn lemma_first_settling_result_is_final<T>(
    outcomes: Seq<Result<Response<T>, Error>>,
    k: nat,
)
    requires
        1 <= k <= outcomes.len() <= usize::MAX,
        forall|j: int| 0 <= j < k - 1 ==> is_transport_failure(#[trigger] outcomes[j]),
        settles(outcomes[k - 1]),
    ensures
        failover_run(outcomes) == (outcomes[k - 1], k),
{
    lemma_run_reaches(outcomes, 0, (k - 1) as nat);
}

/// A failover whose first member answers returns that member's result after one
/// attempt.
pub proof fn lemma_first_success_is_final<T>(outcomes: Seq<Result<Response<T>, Error>>)
    requires
        0 < outcomes.len() <= usize::MAX,
        outcomes[0] is Ok,
    ensures
        failover_run(outcomes) == (outcomes[0], 1nat),
{
    lemma_run_reaches(outcomes, 0, 0);
}

/// When the first `k - 1` members fail to be reached and member `k` answers, the
/// failover returns that answer after exactly `k` attempts.
pub proof fn lemma_success_after_transport_failures<T>(
    outcomes: Seq<Result<Response<T>, Error>>,
    k: nat,
)
    requires
        1 <= k <= outcomes.len() <= usize::MAX,
        forall|j: int| 0 <= j < k - 1 ==> is_transport_failure(#[trigger] outcomes[j]),
        outcomes[k - 1] is Ok,
    ensures
        failover_run(outcomes) == (outcomes[k - 1], k),
{
    lemma_run_reaches(outcomes, 0, (k - 1) as nat);
}

/// When no member can be reached, the failover tries every member and returns the
/// transport failure of the last.
pub proof fn lemma_all_transport_failures<T>(outcomes: Seq<Result<Response<T>, Error>>)
    requires
        0 < outcomes.len() <= usize::MAX,
        forall|j: int| 0 <= j < outcomes.len() ==> is_transport_failure(#[trigger] outcomes[j]),
    ensures
        failover_run(outcomes) == (outcomes[outcomes.len() - 1], outcomes.len()),
{
    lemma_run_reaches(outcomes, 0, (outcomes.len() - 1) as nat);
}

/// An etcd error or a body that does not decode from the first member is returned at
/// once: no other member is tried.
pub proof fn lemma_api_or_decode_error_is_final<T>(outcomes: Seq<Result<Response<T>, Error>>)
    requires
        0 < outcomes.len() <= usize::MAX,
        outcomes[0] matches Err(e) && (e is Api || e is Decode),
    ensures
        failover_run(outcomes) == (outcomes[0], 1nat),
{
    lemma_run_reaches(outcomes, 0, 0);
}

} // verus!

//! Fan-out to every member of a cluster: one request per member, all in flight at once,
//! and one result slot per member, filled in the order the answers arrive.
//!
//! The caller issues the requests and hands each result to a [`FanOut`] as it
//! completes; the collector keeps one result per member and says when every member has
//! answered.
use vstd::prelude::*;
use vstd::set_lib::{lemma_int_range, set_int_range};

use crate::error::Error;
use crate::requester::Response;

verus! {

/// The results of a fan-out, in order of arrival.
pub struct FanOut<T> {
    endpoint_count: usize,
    answered: Vec<bool>,
    results: Vec<Result<Response<T>, Error>>,
    arrivals: Ghost<Seq<int>>,
}

impl<T> FanOut<T> {
    /// The number of members queried.
    pub closed spec fn count(&self) -> nat {
        self.endpoint_count as nat
    }

    /// The positions of the members that have answered, in order of arrival.
    pub closed spec fn arrivals(&self) -> Seq<int> {
        self.arrivals@
    }

    /// The results received so far, in order of arrival.
    pub closed spec fn results(&self) -> Seq<Result<Response<T>, Error>> {
        self.results@
    }

    /// Each result belongs to one member, and no member has answered twice.
    pub closed spec fn wf(&self) -> bool {
        &&& self.answered@.len() == self.endpoint_count
        &&& self.arrivals@.len() == self.results@.len()
        &&& self.arrivals@.no_duplicates()
        &&& forall|k: int|
            0 <= k < self.arrivals@.len() ==> 0 <= #[trigger] self.arrivals@[k] < self.endpoint_count
        &&& forall|i: int|
            0 <= i < self.endpoint_count ==> (#[trigger] self.answered@[i] <==> self.arrivals@.contains(i))
    }

    /// Whether the member at position `i` has answered.
    pub open spec fn has_answered(&self, i: int) -> bool {
        self.arrivals().contains(i)
    }

    /// Whether every member has answered.
    pub open spec fn all_answered(&self) -> bool {
        forall|i: int| 0 <= i < self.count() ==> self.has_answered(i)
    }

    /// A fan-out over `endpoint_count` members, none of which has answered yet.
    pub fn new(endpoint_count: usize) -> (r: FanOut<T>)
        ensures
            r.wf(),
            r.count() == endpoint_count,
            r.arrivals() == Seq::<int>::empty(),
            r.results() == Seq::<Result<Response<T>, Error>>::empty(),
    {
        let mut answered: Vec<bool> = Vec::new();
        let mut i: usize = 0;
        while i < endpoint_count
            invariant
                i <= endpoint_count,
                answered@.len() == i,
                forall|k: int| 0 <= k < i ==> !#[trigger] answered@[k],
            decreases endpoint_count - i,
        {
            answered.push(false);
            i = i + 1;
        }
        FanOut { endpoint_count, answered, results: Vec::new(), arrivals: Ghost(Seq::empty()) }
    }

    /// Records the result of the member at position `endpoint`. It is kept exactly when
    /// that is a member of the fan-out that has not answered before; otherwise nothing
    /// changes. Returns whether it was kept.
    pub fn record(&mut self, endpoint: usize, result: Result<Response<T>, Error>) -> (kept: bool)
        requires
            old(self).wf(),
        ensures
            final(self).wf(),
            final(self).count() == old(self).count(),
            kept == (endpoint < old(self).count() && !old(self).has_answered(endpoint as int)),
            kept ==> final(self).arrivals() == old(self).arrivals().push(endpoint as int),
            kept ==> final(self).results() == old(self).results().push(result),
            !kept ==> final(self).arrivals() == old(self).arrivals(),
            !kept ==> final(self).results() == old(self).results(),
    {
        if endpoint >= self.endpoint_count || self.answered[endpoint] {
            return false;
        }
        let ghost before = self.arrivals@;
        self.answered.set(endpoint, true);
        self.results.push(result);
        self.arrivals = Ghost(before.push(endpoint as int));
        proof {
            assert forall|k: int| 0 <= k < self.arrivals@.len() implies 0 <= #[trigger] self.arrivals@[k] < self.endpoint_count by {
                if k < before.len() {
                    assert(self.arrivals@[k] == before[k]);
                }
            }
            assert forall|i: int| 0 <= i < self.endpoint_count implies (#[trigger] self.answered@[i] <==> self.arrivals@.contains(i)) by {
                if self.arrivals@.contains(i) && i != endpoint {
                    let k = choose|k: int| 0 <= k < self.arrivals@.len() && self.arrivals@[k] == i;
                    assert(k < before.len());
                    assert(before[k] == i);
                }
                if before.contains(i) {
                    let k = choose|k: int| 0 <= k < before.len() && before[k] == i;
                    assert(self.arrivals@[k] == i);
                }
                if i == endpoint {
                    assert(self.arrivals@[before.len() as int] == i);
                }
            }
            assert forall|a: int, b: int| 0 <= a < b < self.arrivals@.len() implies self.arrivals@[a] != self.arrivals@[b] by {
                if b == before.len() {
                    assert(before[a] == self.arrivals@[a]);
                }
            }
        }
        true
    }

    /// Whether the member at position `endpoint` has answered.
    pub fn answered(&self, endpoint: usize) -> (r: bool)
        requires
            self.wf(),
        ensures
            r == (endpoint < self.count() && self.has_answered(endpoint as int)),
    {
        endpoint < self.endpoint_count && self.answered[endpoint]
    }

    /// Whether a result has come from every member.
    pub fn is_complete(&self) -> (r: bool)
        requires
            self.wf(),
        ensures
            r == (self.results().len() == self.count()),
    {
        self.results.len() == self.endpoint_count
    }

    /// The results, one per member that has answered, in order of arrival.
    pub fn into_results(self) -> (r: Vec<Result<Response<T>, Error>>)
        ensures
            r@ == self.results(),
    {
        self.results
    }

    /// Once every member has answered, there is exactly one result per member, whatever
    /// mix of successes and failures they gave.
    pub proof fn lemma_one_result_per_member(&self)
        requires
            self.wf(),
            self.all_answered(),
        ensures
            self.results().len() == self.count(),
    {
        let a = self.arrivals@;
        let n = self.endpoint_count as int;
        assert(a.to_set() =~= set_int_range(0, n)) by {
            assert forall|i: int| a.to_set().contains(i) implies set_int_range(0, n).contains(i) by {
                let k = choose|k: int| 0 <= k < a.len() && a[k] == i;
                assert(0 <= a[k] < n);
            }
            assert forall|i: int| set_int_range(0, n).contains(i) implies a.to_set().contains(i) by {
                assert(self.has_answered(i));
            }
        }
        lemma_int_range(0, n);
        a.unique_seq_to_set();
    }
}

} // verus!

use vstd::prelude::*;

use crate::decimal::{decimal, lemma_decimal_injective};
use crate::message::{Request, Response};
use crate::service::{accepts, answers, counter_header, ServiceError};

verus! {

/// `results` are the outcomes of calls on `requests`, made one after the
/// other on services that share one counter which held `start` before the
/// first: the `k`-th call observed `start + k`.
///
/// Which service made each call does not enter: a call's outcome depends on
/// its request and the value it observed alone.
pub open spec fn run_answers(
    results: Seq<Result<Response, ServiceError>>,
    requests: Seq<Request>,
    start: nat,
) -> bool {
    &&& results.len() == requests.len()
    &&& forall|k: int|
        0 <= k < results.len() ==> answers(#[trigger] results[k], requests[k]@, (start + k) as nat)
}

/// The counter header of a successful outcome.
pub open spec fn counter_value(r: Result<Response, ServiceError>) -> Seq<char>
    recommends
        r is Ok,
{
    r->Ok_0@.headers[counter_header()]
}

/// Every successful call of a run carries in its counter header the value
/// the counter held when the call began, and no two calls carry the same
/// value.
pub proof fn law_run_values_distinct(
    results: Seq<Result<Response, ServiceError>>,
    requests: Seq<Request>,
    start: nat,
    i: int,
    j: int,
)
    requires
        run_answers(results, requests, start),
        0 <= i < results.len(),
        0 <= j < results.len(),
        i != j,
        results[i] is Ok,
        results[j] is Ok,
    ensures
        counter_value(results[i]) == decimal((start + i) as nat),
        counter_value(results[j]) == decimal((start + j) as nat),
        counter_value(results[i]) != counter_value(results[j]),
{
    assert(answers(results[i], requests[i]@, (start + i) as nat));
    assert(answers(results[j], requests[j]@, (start + j) as nat));
    if counter_value(results[i]) == counter_value(results[j]) {
        lemma_decimal_injective((start + i) as nat, (start + j) as nat);
    }
}

/// Calls from any number of services sharing one counter observe every value
/// from the counter's start on exactly once: a value `v` of
/// `[start, start + n)` that is not 2 modulo 4 is carried by exactly one
/// successful call, and the call that observed one that is fails.
pub proof fn law_run_covers_range(
    results: Seq<Result<Response, ServiceError>>,
    requests: Seq<Request>,
    start: nat,
    v: nat,
)
    requires
        run_answers(results, requests, start),
        start <= v < start + results.len(),
    ensures
        accepts(v) ==> forall|k: int|
            0 <= k < results.len() ==> ((#[trigger] results[k] is Ok && counter_value(results[k])
                == decimal(v)) <==> k == v - start),
        !accepts(v) ==> results[v - start] matches Err(ServiceError::CallFailure(_)),
{
    let m = v - start;
    assert(answers(results[m], requests[m]@, v));
    assert forall|k: int| 0 <= k < results.len() && accepts(v) implies ((#[trigger] results[k] is Ok
        && counter_value(results[k]) == decimal(v)) <==> k == m) by {
        assert(answers(results[k], requests[k]@, (start + k) as nat));
        if results[k] is Ok && counter_value(results[k]) == decimal(v) {
            lemma_decimal_injective((start + k) as nat, v);
        }
    }
}

/// Services created by one factory share one sequence: whichever of them
/// makes each call, a later successful call carries a larger counter value
/// than an earlier one.
pub proof fn law_run_values_increase(
    results: Seq<Result<Response, ServiceError>>,
    requests: Seq<Request>,
    start: nat,
    i: int,
    j: int,
)
    requires
        run_answers(results, requests, start),
        0 <= i < j < results.len(),
        results[i] is Ok,
        results[j] is Ok,
    ensures
        exists|a: nat, b: nat|
            a < b && counter_value(results[i]) == decimal(a) && counter_value(results[j]) == decimal(b),
{
    assert(answers(results[i], requests[i]@, (start + i) as nat));
    assert(answers(results[j], requests[j]@, (start + j) as nat));
    let a = (start + i) as nat;
    let b = (start + j) as nat;
    assert(counter_value(results[i]) == decimal(a) && counter_value(results[j]) == decimal(b));
}

} // verus!

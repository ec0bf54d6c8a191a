use vstd::prelude::*;

use crate::counter::SharedCounter;
use crate::decimal::{decimal, decimal_string};
use crate::message::{Request, RequestView, Response, ResponseView};

verus! {

/// Why a service could not serve.
#[derive(Debug)]
pub enum ServiceError {
    /// The service will never become ready.
    ReadinessFailure(String),
    /// An accepted call failed.
    CallFailure(String),
    /// No service could be set up for a connection.
    ConnectionSetupFailure(String),
}

impl ServiceError {
    pub fn message(&self) -> (r: &String)
        ensures
            *self matches ServiceError::ReadinessFailure(m) ==> r == m,
            *self matches ServiceError::CallFailure(m) ==> r == m,
            *self matches ServiceError::ConnectionSetupFailure(m) ==> r == m,
    {
        match self {
            ServiceError::ReadinessFailure(m) => m,
            ServiceError::CallFailure(m) => m,
            ServiceError::ConnectionSetupFailure(m) => m,
        }
    }
}

/// The answer to a readiness query.
#[derive(Debug)]
pub enum Readiness {
    /// The service accepts one call now.
    Ready,
    /// Not yet: ask again later.
    NotReady,
    /// The service will never accept a call.
    Failed(ServiceError),
}

/// Name of the header that carries the counter value a call observed.
pub open spec fn counter_header() -> Seq<char> {
    "X-Counter"@
}

/// Whether a call that observed `observed` succeeds: every fourth call, the
/// ones that observe 2 modulo 4, fails.
pub open spec fn accepts(observed: nat) -> bool {
    observed % 4 != 2
}

/// The response to `req` for a call that observed `observed` and succeeded:
/// the request's headers and body, with the counter header added.
pub open spec fn echo_response(req: RequestView, observed: nat) -> ResponseView {
    ResponseView {
        status: 200,
        headers: req.headers.insert(counter_header(), decimal(observed)),
        body: req.body,
    }
}

/// `r` is the outcome of a call on `req` that observed `observed`.
pub open spec fn answers(r: Result<Response, ServiceError>, req: RequestView, observed: nat) -> bool {
    if accepts(observed) {
        r matches Ok(resp) && resp@ == echo_response(req, observed)
    } else {
        r matches Err(ServiceError::CallFailure(_))
    }
}

/// Answers `req` for a call that observed the counter at `observed`.
pub fn respond(req: Request, observed: u64) -> (r: Result<Response, ServiceError>)
    ensures
        answers(r, req@, observed as nat),
{
    if observed % 4 == 2 {
        return Err(ServiceError::CallFailure(String::from_str("Failing 25% of the time, just for fun")));
    }
    let Request { path_and_query: _, headers, body } = req;
    let mut headers = headers;
    let name = String::from_str("X-Counter");
    headers.insert(name, decimal_string(observed));
    Ok(Response { status: 200, headers, body })
}

/// The echoing service: each call takes the next counter value, fails when
/// that value is 2 modulo 4, and otherwise echoes the request back with the
/// value in a header.
///
/// A call spends the readiness that the last `poll_ready` granted.
pub struct DemoApp {
    ready: bool,
}

impl DemoApp {
    pub fn new() -> (r: DemoApp)
        ensures
            !r.is_ready_spec(),
    {
        DemoApp { ready: false }
    }

    /// Whether a readiness grant is waiting to be spent by a call.
    pub closed spec fn is_ready_spec(&self) -> bool {
        self.ready
    }

    pub fn is_ready(&self) -> (r: bool)
        ensures
            r == self.is_ready_spec(),
    {
        self.ready
    }

    /// Asks whether a call is accepted now; this service always is ready.
    pub fn poll_ready(&mut self) -> (r: Readiness)
        ensures
            r is Ready,
            final(self).is_ready_spec(),
    {
        self.ready = true;
        Readiness::Ready
    }

    /// Serves `req`, observing and incrementing `counter`.
    pub fn call(&mut self, req: Request, counter: &mut SharedCounter) -> (r: Result<Response, ServiceError>)
        requires
            old(self).is_ready_spec(),
            old(counter)@ < u64::MAX,
        ensures
            !final(self).is_ready_spec(),
            final(counter)@ == old(counter)@ + 1,
            answers(r, req@, old(counter)@),
    {
        self.ready = false;
        let observed = counter.fetch_increment();
        respond(req, observed)
    }
}

} // verus!

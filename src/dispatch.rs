use vstd::prelude::*;

use crate::message::{Headers, Request, RequestView};
use crate::service::{Readiness, ServiceError};

verus! {

/// Seconds the loop sleeps before it makes each request.
pub const REQUEST_INTERVAL_SECS: u64 = 1;

/// The request the loop makes on each iteration.
pub open spec fn synthetic_request() -> RequestView {
    RequestView {
        target: "/fake/path?page=1"@,
        headers: Map::empty(),
        body: Seq::empty(),
    }
}

pub fn make_request() -> (r: Request)
    ensures
        r@ == synthetic_request(),
{
    Request {
        path_and_query: String::from_str("/fake/path?page=1"),
        headers: Headers::new(),
        body: Vec::new(),
    }
}

/// What the loop is waiting for.
#[derive(PartialEq, Eq, Structural, Clone, Copy, Debug)]
pub enum LoopPhase {
    /// The interval between two requests; it ends with a `Tick`.
    Sleeping,
    /// The answer of a readiness query.
    AwaitingReadiness,
}

/// What the runtime reports to the loop.
pub enum LoopEvent {
    /// The interval has elapsed.
    Tick,
    /// The service answered a readiness query.
    Readiness(Readiness),
}

/// What the loop asks the runtime to do next.
pub enum LoopAction {
    /// Query the service's readiness and report the answer.
    PollReadiness,
    /// Call the service with this request, leave the call's outcome to a task
    /// of its own, and sleep at once: the loop never waits for the call.
    Dispatch(Request),
    /// Log this failure, then sleep.
    ReportFailure(ServiceError),
    /// The event does not concern the loop now: keep waiting.
    Ignore,
}

/// The decisions of the dispatch loop, which drives one long-lived service:
/// sleep, query readiness, call, sleep again.
pub struct DispatchLoop {
    phase: LoopPhase,
}

impl DispatchLoop {
    /// A loop that starts with the interval before its first request.
    pub fn new() -> (r: DispatchLoop)
        ensures
            r.phase() == LoopPhase::Sleeping,
    {
        DispatchLoop { phase: LoopPhase::Sleeping }
    }

    pub closed spec fn phase(&self) -> LoopPhase {
        self.phase
    }

    pub fn current_phase(&self) -> (r: LoopPhase)
        ensures
            r == self.phase(),
    {
        self.phase
    }

    /// Takes one event and decides what to do.
    pub fn step(&mut self, event: LoopEvent) -> (r: LoopAction)
        ensures
            old(self).phase() == LoopPhase::Sleeping ==> match event {
                LoopEvent::Tick => r is PollReadiness && final(self).phase()
                    == LoopPhase::AwaitingReadiness,
                LoopEvent::Readiness(_) => r is Ignore && final(self).phase() == LoopPhase::Sleeping,
            },
            old(self).phase() == LoopPhase::AwaitingReadiness ==> match event {
                LoopEvent::Tick => r is Ignore && final(self).phase() == LoopPhase::AwaitingReadiness,
                LoopEvent::Readiness(Readiness::Ready) => (r matches LoopAction::Dispatch(req)
                    && req@ == synthetic_request()) && final(self).phase() == LoopPhase::Sleeping,
                LoopEvent::Readiness(Readiness::NotReady) => r is PollReadiness && final(self).phase()
                    == LoopPhase::AwaitingReadiness,
                LoopEvent::Readiness(Readiness::Failed(e)) => r == LoopAction::ReportFailure(e)
                    && final(self).phase() == LoopPhase::Sleeping,
            },
            // a call is made only right after the service was seen ready
            r is Dispatch ==> old(self).phase() == LoopPhase::AwaitingReadiness && (
            event matches LoopEvent::Readiness(Readiness::Ready)),
            // after a call the loop goes straight on to its next interval
            r is Dispatch ==> final(self).phase() == LoopPhase::Sleeping,
    {
        match self.phase {
            LoopPhase::Sleeping => match event {
                LoopEvent::Tick => {
                    self.phase = LoopPhase::AwaitingReadiness;
                    LoopAction::PollReadiness
                },
                LoopEvent::Readiness(_) => LoopAction::Ignore,
            },
            LoopPhase::AwaitingReadiness => match event {
                LoopEvent::Tick => LoopAction::Ignore,
                LoopEvent::Readiness(Readiness::Ready) => {
                    self.phase = LoopPhase::Sleeping;
                    LoopAction::Dispatch(make_request())
                },
                LoopEvent::Readiness(Readiness::NotReady) => LoopAction::PollReadiness,
                LoopEvent::Readiness(Readiness::Failed(e)) => {
                    self.phase = LoopPhase::Sleeping;
                    LoopAction::ReportFailure(e)
                },
            },
        }
    }
}

} // verus!

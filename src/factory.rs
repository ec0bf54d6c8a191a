use vstd::prelude::*;

use crate::counter::SharedCounter;
use crate::message::{Request, Response};
use crate::run::run_answers;
use crate::service::{answers, DemoApp, ServiceError};

verus! {

/// What the transport tells about an accepted connection.
pub struct ConnectionInfo {
    pub peer: String,
}

/// Makes one `DemoApp` per accepted connection; all of them observe the
/// factory's counter.
pub struct DemoAppFactory {
    pub counter: SharedCounter,
}

impl DemoAppFactory {
    pub fn new() -> (r: DemoAppFactory)
        ensures
            r.counter@ == 0,
    {
        DemoAppFactory { counter: SharedCounter::new() }
    }

    /// Creates the service for a new connection. It never fails.
    pub fn create(&mut self, _conn: &ConnectionInfo) -> (r: Result<DemoApp, core::convert::Infallible>)
        ensures
            r matches Ok(app) && !app.is_ready_spec(),
            final(self).counter@ == old(self).counter@,
    {
        Ok(DemoApp::new())
    }

    /// Serves the requests of one connection in order, on a service of its
    /// own: each is answered after a readiness grant, and the `i`-th observes
    /// the counter at its value on entry plus `i`.
    pub fn serve_connection(&mut self, conn: &ConnectionInfo, requests: Vec<Request>) -> (r: Vec<
        Result<Response, ServiceError>,
    >)
        requires
            old(self).counter@ + requests@.len() <= u64::MAX,
        ensures
            run_answers(r@, requests@, old(self).counter@),
            final(self).counter@ == old(self).counter@ + requests@.len(),
    {
        let ghost start = self.counter@;
        let ghost given = requests@;
        let mut app = match self.create(conn) {
            Ok(app) => app,
        };
        let mut pending = requests;
        let mut results: Vec<Result<Response, ServiceError>> = Vec::new();
        while pending.len() > 0
            invariant
                start + given.len() <= u64::MAX,
                results@.len() + pending@.len() == given.len(),
                pending@ == given.subrange(results@.len() as int, given.len() as int),
                self.counter@ == start + results@.len(),
                forall|i: int|
                    0 <= i < results@.len() ==> answers(#[trigger] results@[i], given[i]@, (start + i) as nat),
            decreases pending@.len(),
        {
            let req = pending.remove(0);
            let _ = app.poll_ready();
            let res = app.call(req, &mut self.counter);
            results.push(res);
            assert(pending@ =~= given.subrange(results@.len() as int, given.len() as int));
        }
        results
    }
}

} // verus!

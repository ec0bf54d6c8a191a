use vstd::prelude::*;

use crate::message::{Request, Response};
use crate::service::{Readiness, ServiceError};

verus! {

/// A service made of a function: always ready, and each call hands the
/// request to the function.
pub struct AppFn<F> {
    f: F,
    ready: bool,
}

/// Makes a service of `f`.
pub fn app_fn<F>(f: F) -> (r: AppFn<F>)
    where
        F: Fn(Request) -> Result<Response, ServiceError>,
    ensures
        r.function() == f,
        !r.is_ready_spec(),
{
    AppFn { f, ready: false }
}

impl<F> AppFn<F> where F: Fn(Request) -> Result<Response, ServiceError> {
    /// The function each call runs.
    pub closed spec fn function(&self) -> F {
        self.f
    }

    /// Whether a readiness grant is waiting to be spent by a call.
    pub closed spec fn is_ready_spec(&self) -> bool {
        self.ready
    }

    pub fn is_ready(&self) -> (r: bool)
        ensures
            r == self.is_ready_spec(),
    {
        self.ready
    }

    /// Asks whether a call is accepted now; it always is.
    pub fn poll_ready(&mut self) -> (r: Readiness)
        ensures
            r is Ready,
            final(self).is_ready_spec(),
            final(self).function() == old(self).function(),
    {
        self.ready = true;
        Readiness::Ready
    }

    /// Runs the function on `req`, spending the readiness grant.
    pub fn call(&mut self, req: Request) -> (r: Result<Response, ServiceError>)
        requires
            old(self).is_ready_spec(),
            call_requires(old(self).function(), (req,)),
        ensures
            call_ensures(old(self).function(), (req,), r),
            !final(self).is_ready_spec(),
            final(self).function() == old(self).function(),
    {
        self.ready = false;
        (self.f)(req)
    }
}

} // verus!

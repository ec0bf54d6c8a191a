use vstd::prelude::*;

verus! {

/// The one piece of state that all services made by one factory share.
///
/// Increments are serialised by whoever owns the counter: every call that
/// observes it takes it by `&mut`, so no two calls can read the same value.
pub struct SharedCounter {
    next: u64,
}

impl View for SharedCounter {
    type V = nat;

    closed spec fn view(&self) -> nat {
        self.next as nat
    }
}

impl SharedCounter {
    pub fn new() -> (r: SharedCounter)
        ensures
            r@ == 0,
    {
        SharedCounter { next: 0 }
    }

    /// The value the next increment will observe.
    pub fn current(&self) -> (r: u64)
        ensures
            r == self@,
    {
        self.next
    }

    /// Increments the counter and returns the value it held before.
    pub fn fetch_increment(&mut self) -> (r: u64)
        requires
            old(self)@ < u64::MAX,
        ensures
            r == old(self)@,
            final(self)@ == old(self)@ + 1,
    {
        let r = self.next;
        self.next = self.next + 1;
        r
    }
}

} // verus!

use vstd::prelude::*;

use crate::decimal::{decimal, decimal_string};

verus! {

/// The echo endpoint: answers a message with the same message, prefixed.
pub struct MyEcho;

impl MyEcho {
    pub fn echo(&self, message: String) -> (r: String)
        ensures
            r@ == "Echoing back: "@ + message@,
    {
        String::from_str("Echoing back: ").concat(message.as_str())
    }
}

/// The body of the greeting endpoint.
pub fn hello_world() -> (r: String)
    ensures
        r@ == "Hello, World!"@,
{
    String::from_str("Hello, World!")
}

/// The body of the counter page for a visit that observed `observed`.
pub fn counter_page(observed: u64) -> (r: String)
    ensures
        r@ == "Counter is at: "@ + decimal(observed as nat),
{
    let digits = decimal_string(observed);
    String::from_str("Counter is at: ").concat(digits.as_str())
}

} // verus!

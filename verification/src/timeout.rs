//! The middleware that gives up on slow requests.
use vstd::prelude::*;

verus! {

/// Gives up on a request after `value` seconds, answering with a server
/// error.
#[derive(Clone, Copy, Debug)]
pub struct Timeout {
    pub value: u64,
}

impl Timeout {
    pub fn new(value: u64) -> (r: Timeout)
        ensures
            r.value == value,
    {
        Timeout { value }
    }
}

} // verus!

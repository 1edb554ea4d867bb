//! The middleware that logs each request.
use vstd::prelude::*;

verus! {

/// Logs each request and how its answer went.
#[derive(Clone, Copy, Debug, Default)]
pub struct Logger {}

impl Logger {
    pub fn new() -> (r: Logger) {
        Logger {}
    }
}

} // verus!

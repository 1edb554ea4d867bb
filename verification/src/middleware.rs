//! The middleware that answers CORS requests.
use vstd::prelude::*;
use crate::text::same_text;

verus! {

/// Answers GET requests at once with an empty body.
#[derive(Clone, Copy, Debug, Default)]
pub struct Cors {}

/// What the CORS middleware does with a request.
#[derive(Clone, Copy, Debug, PartialEq, Eq, Structural)]
pub enum CorsAction {
    /// Answer at once with an empty body.
    RespondEmpty,
    /// Hand the request on.
    Next,
}

impl Cors {
    pub fn new() -> (r: Cors) {
        Cors {}
    }

    pub fn name() -> (r: String)
        ensures
            r@ == "Cors"@,
    {
        crate::text::owned("Cors")
    }

    /// GET requests are answered at once; others are handed on.
    pub fn before_request(&self, method: &str) -> (r: CorsAction)
        ensures
            method@ == "GET"@ ==> r == CorsAction::RespondEmpty,
            method@ != "GET"@ ==> r == CorsAction::Next,
    {
        if same_text(method, "GET") {
            CorsAction::RespondEmpty
        } else {
            CorsAction::Next
        }
    }

    /// After a request everything is handed on.
    pub fn after_request(&self) -> (r: CorsAction)
        ensures
            r == CorsAction::Next,
    {
        CorsAction::Next
    }
}

} // verus!

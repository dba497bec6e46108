//! The request body of a forwarding endpoint.

use vstd::prelude::*;

verus! {

/// Where a forwarding request asks to be forwarded.
#[derive(Debug, Clone)]
pub struct ForwardDetails {
    pub forward_url: String,
}

impl ForwardDetails {
    pub fn new(forward_url: String) -> (r: ForwardDetails)
        ensures
            r.forward_url@ == forward_url@,
    {
        ForwardDetails { forward_url }
    }
}

} // verus!

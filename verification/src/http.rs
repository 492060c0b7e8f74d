//! What comes back from an HTTP request, as the adapter sees it.

use vstd::prelude::*;

verus! {

/// The outcome of one HTTP request.
#[derive(Clone, Debug, PartialEq, Eq)]
pub enum HttpReply {
    /// No response arrived. The text says why.
    Failed(String),
    /// The server answered.
    Response { status: u16, body: Vec<u8> },
}

/// Whether a status code belongs to the success class.
pub open spec fn is_success(status: u16) -> bool {
    200 <= status < 300
}

} // verus!

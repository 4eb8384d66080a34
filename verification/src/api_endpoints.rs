//! The remote endpoints that the client talks to.

use vstd::prelude::*;

verus! {

/// Where posts and replies are created.
pub const POST_TW: &'static str = "https://api.twitter.com/2/tweets";

} // verus!

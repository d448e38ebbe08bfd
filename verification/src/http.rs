//! The one decision the HTTP transport makes: which status codes count as a
//! successful response. The transport itself lives outside this crate.

use vstd::prelude::*;

verus! {

/// A response succeeds exactly on the 2xx status range; anything else is
/// reported upward as an unexpected response.
pub fn is_success_status(status: u16) -> (r: bool)
    ensures
        r == (200 <= status <= 299),
{
    200 <= status && status <= 299
}

} // verus!

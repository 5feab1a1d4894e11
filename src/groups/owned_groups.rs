//! Groups owned by the authenticated user: `GET /groups/owned`, which takes
//! no filter.

use vstd::prelude::*;

verus! {

/// The listing of owned groups.
#[derive(Debug, Clone, Copy, PartialEq, Eq, Structural)]
pub struct Listing {}

impl Listing {
    pub fn new() -> (r: Listing) {
        Listing {}
    }

    /// Always the bare path `groups/owned`.
    pub fn build_query(&self) -> (r: String)
        ensures
            r@ == "groups/owned"@,
    {
        String::from_str("groups/owned")
    }
}

} // verus!

//! The role check: does a set of held roles meet a route's requirement?

use vstd::prelude::*;
use crate::models::{held_codes, Role};
use crate::roles::{grants, permits, Capability};

verus! {

/// Whether some role of `roles` meets `capability`. With no role the answer
/// is no.
pub fn has_access(roles: &Vec<Role>, capability: &Capability) -> (granted: bool)
    ensures
        granted == grants(*capability, held_codes(roles@)),
{
    let mut i: usize = 0;
    while i < roles.len()
        invariant
            i <= roles@.len(),
            forall|k: int| 0 <= k < i ==> !permits(*capability, #[trigger] held_codes(roles@)[k]),
        decreases roles@.len() - i,
    {
        if roles[i].code.meets(capability) {
            assert(permits(*capability, held_codes(roles@)[i as int]));
            return true;
        }
        i += 1;
    }
    false
}

} // verus!

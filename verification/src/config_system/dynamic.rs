//! Typed, scoped dynamic configuration updates: a slice's handle is notified only when that
//! slice changed.

use vstd::prelude::*;
use vstd::std_specs::cmp::PartialEqSpec;

verus! {

/// Replaces `current` with `next` when they differ, reporting whether a change occurred.
pub fn replace_if_changed<T: PartialEq>(current: &mut T, next: T) -> (changed: bool)
    ensures
        changed ==> *final(current) == next,
        !changed ==> *final(current) == *old(current),
        T::obeys_eq_spec() ==> changed == !(*old(current)).eq_spec(&next),
{
    if *current == next {
        false
    } else {
        *current = next;
        true
    }
}

} // verus!

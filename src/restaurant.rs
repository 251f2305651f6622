//! Eating out: reaching the restaurant's functions by their paths.
use vstd::prelude::*;

verus! {

/// Puts the party on the waiting list twice, once by the absolute path of
/// the function and once by its relative path.
pub fn eat_at_restaurant() {
    crate::front_of_house::hosting::add_to_waitlist();
    super::front_of_house::hosting::add_to_waitlist();
}

} // verus!

//! The hosting functions, brought into scope and re-exported.
pub use crate::front_of_house::hosting;
use vstd::prelude::*;

verus! {

/// Puts the party on the waiting list three times.
pub fn eat_at_restaurant() {
    hosting::add_to_waitlist();
    hosting::add_to_waitlist();
    hosting::add_to_waitlist();
}

} // verus!

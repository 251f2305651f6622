//! Seating guests.
use vstd::prelude::*;

verus! {

/// Puts a party on the waiting list; the list is not kept yet.
pub fn add_to_waitlist() {
}

} // verus!

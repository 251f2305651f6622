//! A guess that is known to lie between 1 and 100.
use vstd::prelude::*;

verus! {

#[derive(PartialEq, Eq, Structural, Debug)]
pub struct Guess {
    value: i32,
}

impl Guess {
    /// The number guessed.
    pub closed spec fn spec_value(&self) -> i32 {
        self.value
    }

    /// Whether the number lies between 1 and 100.
    pub open spec fn wf(&self) -> bool {
        1 <= self.spec_value() <= 100
    }

    /// A guess of `value`, which must lie between 1 and 100.
    pub fn new(value: i32) -> (r: Guess)
        requires
            1 <= value <= 100,
        ensures
            r.spec_value() == value,
            r.wf(),
    {
        Guess { value }
    }

    /// The number guessed.
    pub fn value(&self) -> (r: i32)
        ensures
            r == self.spec_value(),
    {
        self.value
    }
}

} // verus!

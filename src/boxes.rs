//! A box of one's own, and the dereference that reaches its contents.
use vstd::prelude::*;

verus! {

/// A value held in a box of one field.
pub struct MyBox<T>(pub T);

impl<T> MyBox<T> {
    /// A box that holds `x`.
    pub fn new(x: T) -> (r: MyBox<T>)
        ensures
            r.0 == x,
    {
        MyBox(x)
    }
}

impl<T> core::ops::Deref for MyBox<T> {
    type Target = T;

    fn deref(&self) -> (r: &T)
        ensures
            *r == self.0,
    {
        &self.0
    }
}

} // verus!

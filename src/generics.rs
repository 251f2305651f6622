//! Generic functions and types: the largest item of a list, a pair.
use vstd::laws_cmp::obeys_partial_cmp_spec_properties;
use vstd::prelude::*;
use vstd::std_specs::cmp::PartialOrdSpec;

verus! {

/// Whether `a` is greater than `b` by the order of `T`.
pub open spec fn greater<T: PartialOrd>(a: T, b: T) -> bool {
    a.partial_cmp_spec(&b) == Some(core::cmp::Ordering::Greater)
}

/// The largest item of a non-empty list: an item of the list than which no
/// item is greater; the first such item when several are.
pub fn largest<T: PartialOrd + Copy>(list: &[T]) -> (r: T)
    requires
        list@.len() > 0,
        T::obeys_partial_cmp_spec(),
        obeys_partial_cmp_spec_properties::<T>(),
    ensures
        exists|i: int| 0 <= i < list@.len() && list@[i] == r,
        forall|i: int| 0 <= i < list@.len() ==> !greater(#[trigger] list@[i], r),
{
    let mut largest = list[0];
    proof {
        reveal(obeys_partial_cmp_spec_properties);
        assert(!greater(largest, largest));
    }
    let mut k: usize = 1;
    let ghost mut at: int = 0;
    while k < list.len()
        invariant
            1 <= k <= list@.len(),
            0 <= at < list@.len(),
            list@[at] == largest,
            T::obeys_partial_cmp_spec(),
            obeys_partial_cmp_spec_properties::<T>(),
            forall|i: int| 0 <= i < k ==> !greater(#[trigger] list@[i], largest),
        decreases list@.len() - k,
    {
        let item = list[k];
        if item > largest {
            proof {
                reveal(obeys_partial_cmp_spec_properties);
                assert(greater(item, largest));
                assert(!greater(item, item));
                assert forall|i: int| 0 <= i < k implies !greater(#[trigger] list@[i], item) by {
                    if greater(list@[i], item) {
                        assert(greater(list@[i], largest));
                    }
                }
                at = k as int;
            }
            largest = item;
        }
        k = k + 1;
    }
    largest
}

/// Two values of one type.
pub struct Pair<T> {
    pub x: T,
    pub y: T,
}

impl<T> Pair<T> {
    pub fn new(x: T, y: T) -> (r: Self)
        ensures
            r.x == x,
            r.y == y,
    {
        Self { x, y }
    }
}

/// A point whose coordinates may have different types.
pub struct Point<X, Y> {
    pub x: X,
    pub y: Y,
}

impl<X, Y> Point<X, Y> {
    /// The first coordinate.
    pub fn x(&self) -> (r: &X)
        ensures
            *r == self.x,
    {
        &self.x
    }

    /// A point with this point's first coordinate and the second coordinate
    /// of `other`.
    pub fn mixup<X2, Y2>(self, other: Point<X2, Y2>) -> (r: Point<X, Y2>)
        ensures
            r.x == self.x,
            r.y == other.y,
    {
        Point { x: self.x, y: other.y }
    }
}

} // verus!

//! Rectangles: their area and whether one fits inside another.
use vstd::prelude::*;

verus! {

#[derive(PartialEq, Eq, Structural, Clone, Copy, Debug)]
pub struct Rectangle {
    pub width: u32,
    pub height: u32,
}

impl Rectangle {
    /// Whether `other` fits strictly inside this rectangle, both ways.
    pub fn can_hold(&self, other: &Rectangle) -> (r: bool)
        ensures
            r == (self.width > other.width && self.height > other.height),
    {
        self.width > other.width && self.height > other.height
    }
}

/// The area of a rectangle, whose width times height must fit in a `u32`.
pub fn area(rectangle: &Rectangle) -> (r: u32)
    requires
        rectangle.width * rectangle.height <= u32::MAX,
    ensures
        r == rectangle.width * rectangle.height,
{
    rectangle.width * rectangle.height
}

/// The area of a rectangle 30 wide and 50 high.
pub fn meaningful_struct() -> (r: u32)
    ensures
        r == 1500,
{
    let rect1 = Rectangle { width: 30, height: 50 };
    area(&rect1)
}

} // verus!

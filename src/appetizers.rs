//! Ordering appetizers.
use crate::back_of_house::Appetizer;
use vstd::prelude::*;

verus! {

/// Orders a soup and a salad.
pub fn eat_at_restaurant() -> (r: (Appetizer, Appetizer))
    ensures
        r == (Appetizer::Soup, Appetizer::Salad),
{
    let order1 = Appetizer::Soup;
    let order2 = Appetizer::Salad;
    (order1, order2)
}

} // verus!

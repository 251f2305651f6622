//! Ordering breakfast.
use crate::back_of_house::Breakfast;
use vstd::prelude::*;

verus! {

/// Orders a summer breakfast with rye toast, then changes the toast to
/// wheat; the order as it stands is returned.
pub fn eat_at_restaurant() -> (r: Breakfast)
    ensures
        r.spec_toast() == "Wheat"@,
        r.spec_seasonal_fruit() == "peaches"@,
{
    let mut meal = Breakfast::summer("Rye");
    meal.change_toast("Wheat");
    meal
}

} // verus!

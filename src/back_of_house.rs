//! The kitchen: breakfasts, appetizers, and orders.
use vstd::prelude::*;

verus! {

/// A breakfast: the guest picks the toast, the kitchen the fruit.
pub struct Breakfast {
    pub toast: String,
    seasonal_fruit: String,
}

impl Breakfast {
    /// The toast that the guest picked.
    pub closed spec fn spec_toast(&self) -> Seq<char> {
        self.toast@
    }

    /// The fruit that comes with the breakfast.
    pub closed spec fn spec_seasonal_fruit(&self) -> Seq<char> {
        self.seasonal_fruit@
    }

    /// A summer breakfast with the given toast; it comes with peaches.
    pub fn summer(toast: &str) -> (r: Breakfast)
        ensures
            r.spec_toast() == toast@,
            r.spec_seasonal_fruit() == "peaches"@,
    {
        Breakfast { toast: String::from_str(toast), seasonal_fruit: String::from_str("peaches") }
    }

    /// Changes the toast; the fruit stays.
    pub fn change_toast(&mut self, toast: &str)
        ensures
            final(self).spec_toast() == toast@,
            final(self).spec_seasonal_fruit() == old(self).spec_seasonal_fruit(),
    {
        self.toast = String::from_str(toast);
    }

    /// The toast that the guest picked.
    pub fn toast(&self) -> (r: &str)
        ensures
            r@ == self.spec_toast(),
    {
        self.toast.as_str()
    }

    /// The fruit that comes with the breakfast.
    pub fn seasonal_fruit(&self) -> (r: &str)
        ensures
            r@ == self.spec_seasonal_fruit(),
    {
        self.seasonal_fruit.as_str()
    }
}

#[derive(PartialEq, Eq, Structural, Clone, Copy, Debug)]
pub enum Appetizer {
    Soup,
    Salad,
}

/// Hands an order to the guest.
pub fn serve_order() {
}

/// Cooks an order.
fn cook_order() {
}

/// Cooks an order again and serves it.
pub fn fix_incorrect_order() {
    cook_order();
    serve_order();
}

} // verus!

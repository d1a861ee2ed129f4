//! The kitchen: the guest picks the bread, the cook picks the fruit.

use vstd::prelude::*;

verus! {

/// A breakfast. The toast is the guest's choice; the fruit is not theirs to
/// see or change.
pub struct Breakfast {
    pub toast: String,
    seasonal_fruit: String,
}

impl Breakfast {
    /// The bread that the guest chose.
    pub closed spec fn toast(&self) -> Seq<char> {
        self.toast@
    }

    /// The fruit that comes with the breakfast.
    pub closed spec fn seasonal_fruit(&self) -> Seq<char> {
        self.seasonal_fruit@
    }

    /// A summer breakfast: the chosen toast, with peaches.
    pub fn summer(toast: &str) -> (meal: Breakfast)
        ensures
            meal.toast() == toast@,
            meal.seasonal_fruit() == "peaches"@,
    {
        Breakfast {
            toast: String::from_str(toast),
            seasonal_fruit: String::from_str("peaches"),
        }
    }
}

/// What comes before the meal.
pub enum Appetizer {
    Soup,
    Salad,
}

} // verus!

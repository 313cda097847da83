//! The kitchen side of a restaurant: breakfasts and appetizers.
use vstd::prelude::*;
use vstd::string::StringExecFns;

verus! {

/// A breakfast: the toast is the guest's choice, the fruit the season's.
pub struct Breakfast {
    pub toast: String,
    seasonal_fruit: String,
}

/// A starter.
pub enum Appetizer {
    Soup,
    Salad,
}

impl Breakfast {
    /// The toast chosen.
    pub closed spec fn toast_of(&self) -> Seq<char> {
        self.toast@
    }

    /// The fruit served with this breakfast.
    pub closed spec fn fruit(&self) -> Seq<char> {
        self.seasonal_fruit@
    }

    /// A summer breakfast with the given toast, served with peaches.
    pub fn summer(toast: &str) -> (r: Breakfast)
        ensures
            r.toast_of() == toast@,
            r.fruit() == "peaches"@,
    {
        Breakfast { toast: String::from_str(toast), seasonal_fruit: String::from_str("peaches") }
    }
}

} // verus!

use vstd::prelude::*;

verus! {

/// A breakfast order: the guest picks the toast, the kitchen picks the fruit.
pub struct Breakfast {
    pub toast: String,
    seasonal_fruit: String,
}

impl Breakfast {
    /// The toast the guest chose.
    pub closed spec fn toast_of(&self) -> Seq<char> {
        self.toast@
    }

    /// The fruit the kitchen chose; callers may read it but not change it.
    pub closed spec fn fruit(&self) -> Seq<char> {
        self.seasonal_fruit@
    }

    /// The summer breakfast: the given toast, with peaches.
    pub fn summer(toast: &str) -> (r: Breakfast)
        ensures
            r.toast_of() == toast@,
            r.fruit() == "peaches"@,
    {
        Breakfast { toast: toast.to_string(), seasonal_fruit: "peaches".to_string() }
    }

    pub fn seasonal_fruit(&self) -> (r: &str)
        ensures
            r@ == self.fruit(),
    {
        self.seasonal_fruit.as_str()
    }
}

} // verus!

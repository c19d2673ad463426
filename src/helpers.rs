use vstd::prelude::*;

verus! {

/// A city with its population.
pub struct City {
    pub name: String,
    pub population: i64,
    pub country: String,
}

/// Sort key that puts larger populations first.
pub fn city_popuration_descending(city: &City) -> (r: i64)
    requires
        city.population > i64::MIN,
    ensures
        r == -city.population,
{
    -city.population
}

/// Calls `closure` two times in a row, and does nothing else.
pub fn call_twice<F>(mut closure: F) where F: FnMut()
    requires
        call_requires(closure, ()),
    ensures
        call_ensures(closure, (), ()),
{
    closure();
    closure();
}

} // verus!

//! Building the actuator: an empty builder, grown one configuration step
//! at a time.

use vstd::prelude::*;

use crate::Actuator;

verus! {

impl Actuator {
    /// Creates a builder with nothing mounted or attached yet.
    pub fn new() -> (r: Self)
        ensures
            r.routes_view() == Seq::<Seq<char>>::empty(),
            r.endpoint is None,
            r.collector is None,
    {
        let r = Actuator { routes: Vec::new(), endpoint: None, collector: None };
        proof {
            assert(r.routes_view() =~= Seq::<Seq<char>>::empty());
        }
        r
    }

    /// The mounted route paths, in mount order.
    pub fn routes(&self) -> (r: &Vec<String>)
        ensures
            r@.map_values(|n: String| n@) == self.routes_view(),
    {
        &self.routes
    }
}

} // verus!

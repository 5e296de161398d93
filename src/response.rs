use vstd::prelude::*;

verus! {

/// The envelope that every response body of the service decodes into.
pub struct Response<T> {
    pub resource_sets: Vec<ResourceSet<T>>,
}

/// One group of resources returned for a query.
pub struct ResourceSet<T> {
    pub resources: Vec<T>,
}

/// The resources of the first result set, or none when there is no set.
pub open spec fn first_resources<T>(r: Response<T>) -> Seq<T> {
    if r.resource_sets@.len() == 0 {
        Seq::empty()
    } else {
        r.resource_sets@[0].resources@
    }
}

impl<T> Response<T> {
    /// The resources of the first result set, in order; an envelope with no
    /// result set yields no resources, which is not an error.
    pub fn flatten_first(self) -> (r: Vec<T>)
        ensures
            r@ == first_resources(self),
            self.resource_sets@.len() == 0 ==> r@.len() == 0,
            self.resource_sets@.len() > 0 ==> r@ == self.resource_sets@[0].resources@,
    {
        let mut sets = self.resource_sets;
        if sets.len() == 0 {
            Vec::new()
        } else {
            let first = sets.remove(0);
            first.resources
        }
    }
}

} // verus!

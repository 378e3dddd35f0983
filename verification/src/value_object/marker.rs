use std::marker::PhantomData;
use vstd::prelude::*;

verus! {

/// `Clone` of `std::marker::PhantomData`: the std documentation describes the
/// type as zero-sized with a single value, so the copy equals the value it was made from.
pub assume_specification<T: core::marker::PointeeSized>[ <PhantomData<T> as Clone>::clone ](
    marker: &PhantomData<T>,
) -> (r: PhantomData<T>)
    ensures
        r == *marker,
;

} // verus!

use vstd::prelude::*;

verus! {

/// Relies on rand::random: one value of the target type from the
/// thread-local generator.  The value is random, so nothing is promised
/// of it; every caller must state what holds whatever byte comes back.
pub assume_specification<T>[ rand::random::<T> ]() -> (r: T)
    where
        rand::distributions::Standard: rand::distributions::Distribution<T>,
;

} // verus!

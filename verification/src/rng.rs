//! The one source of randomness the simulation draws from.

use vstd::prelude::*;

verus! {

/// Relies on rand::random: draws a fresh value from the thread-local
/// generator. Nothing can be promised of the value; every caller states
/// what holds of every possible outcome.
pub assume_specification<T>[ rand::random::<T> ]() -> (r: T)
    where
        rand::distributions::Standard: rand::distributions::Distribution<T>,
;

} // verus!

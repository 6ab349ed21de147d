//! The randomness source: one startup sample per velocity component,
//! drawn through `rand` and mapped into the fixed-point velocity range.

use vstd::prelude::*;

verus! {

use crate::motion::VEL_LIMIT;

/// Relies on rand::random: draws a value from the thread-local generator.
/// Nothing is assumed of which value comes back.
pub assume_specification<T>[ rand::random::<T> ]() -> (r: T)
    where
        rand::distributions::Standard: rand::distributions::Distribution<T>,
;

/// A velocity component for a newly created ball: whatever the generator
/// returned, mapped into `[-VEL_LIMIT, VEL_LIMIT]` (that is, into
/// [-10.0, 10.0] logical units per frame).
pub fn random_velocity() -> (v: i64)
    ensures
        -VEL_LIMIT <= v <= VEL_LIMIT,
{
    let raw: u32 = rand::random::<u32>();
    let span: u32 = raw % 20001;
    (span as i64) - 10000
}

} // verus!

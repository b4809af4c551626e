//! The one entry point for randomness.
//!
//! Relies on `rand::random`: the generic sampler of the process's thread
//! generator. Nothing can be promised about a random value, so the
//! specification has no `ensures`; every caller states what holds of its
//! own state for any draw. The call aborts the process if the operating
//! system's entropy source fails on a thread's first draw — an
//! environmental failure, like running out of memory, that no `requires`
//! can exclude.

use vstd::prelude::*;

verus! {

pub assume_specification<T>[ rand::random::<T> ]() -> (r: T)
    where
        rand::distributions::Standard: rand::distributions::Distribution<T>,
;

} // verus!

//! The decision core of the Nelder-Mead simplex minimiser. Costs enter as
//! keys of their binary64 bit patterns (`cost_key`); the simplex ranks its
//! vertices by key, decides each round's branch and applies the move
//! (`simplex`). Point arithmetic is left to the caller.
use vstd::prelude::*;

pub mod cost_key;
pub mod simplex;

verus! {

} // verus!

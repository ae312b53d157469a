//! The health counter.
//!
//! A signed counter with no floor of its own: an entity whose health
//! drops to zero or below becomes eligible for despawn by whatever
//! collaborator owns it.  The combat core only ever deducts from it —
//! damage handlers never despawn the target — and an entity without a
//! health component simply ignores hits.

use vstd::prelude::*;

verus! {

#[derive(Clone, Copy, PartialEq, Eq, Structural, Debug)]
pub struct Health(pub i32);

} // verus!

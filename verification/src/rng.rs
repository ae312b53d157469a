//! Random draws for spell jitter.
//!
//! Bullet-spray pellets and fireball shards leave their caster with a
//! randomly perturbed direction.  The draw itself comes from the `rand`
//! crate; everything stated about a draw holds of every outcome.

use vstd::prelude::*;

verus! {

/// Relies on rand::random::<u32>: a machine-random draw; nothing is
/// promised of the value.
#[verifier::external_body]
fn random_u32() -> u32 {
    rand::random::<u32>()
}

/// A machine-random draw strictly below `n`.
pub fn random_below(n: u32) -> (r: u32)
    requires
        n > 0,
    ensures
        r < n,
{
    random_u32() % n
}

} // verus!

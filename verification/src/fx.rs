//! Particle kinds of the particle effects, and the pool's size cap.

use vstd::prelude::*;

verus! {

/// What a particle looks like when drawn.
#[derive(Clone, Copy, Debug, PartialEq, Eq, Structural)]
pub enum PKind {
    /// Soft expanding blob: tire smoke, exhaust, dust puffs, plane contrails.
    Smoke,
    /// Bright short-lived fleck that falls: crash sparks, impact glints.
    Spark,
    /// Rising sparkle: mission pickups and deliveries.
    Glitter,
    /// Small hard chunk with gravity + bounce: debris from hard impacts.
    Debris,
    /// Arcing blue droplet thrown at a blaze by a citizen with water.
    Water,
}


/// Hard cap so a sustained spin-out can't fill memory or tank the frame.
pub const CAP: usize = 700;

/// Add `p` to the pool `pool`, first dropping the oldest entry when the
/// pool already holds `cap` (or more) entries.
pub fn push_capped<T>(pool: &mut Vec<T>, p: T, cap: usize)
    requires
        cap > 0,
        old(pool)@.len() <= cap,
    ensures
        final(pool)@ == if old(pool)@.len() >= cap {
            old(pool)@.drop_first().push(p)
        } else {
            old(pool)@.push(p)
        },
        final(pool)@.len() <= cap,
        final(pool)@.last() == p,
{
    if pool.len() >= cap {
        pool.remove(0);
        assert(pool@ =~= old(pool)@.drop_first());
    }
    pool.push(p);
}

} // verus!

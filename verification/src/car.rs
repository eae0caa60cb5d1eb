//! Vehicle kinds and the keyboard controls a vehicle is driven with.

use vstd::prelude::*;

verus! {

/// Which kind of car a car is.
#[derive(Clone, Copy, Debug, PartialEq, Eq, Structural)]
pub enum CarKind {
    Player,
    Traffic,
    Police,
}

/// The keyboard controls: each axis is -1, 0 or 1.
#[derive(Clone, Copy, Debug, Default, PartialEq, Eq)]
pub struct CarInput {
    /// 1 = accelerate, -1 = brake / reverse.
    pub throttle: i8,
    /// -1 = left, 1 = right.
    pub steer: i8,
    pub handbrake: bool,
    pub boost: bool,
    /// Aircraft pitch stick: 1 = climb, -1 = dive (cars ignore it).
    pub pitch: i8,
}

} // verus!

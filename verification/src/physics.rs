//! The physics world: a simulation advanced by one fixed-point time unit per
//! step, reading the committed terrain as its collision surface.
//!
//! Collision and integration internals are the physics layer's own concern;
//! this core tracks the reproducible part of the interface: the world's
//! logical size and its fixed-point clock, advanced deterministically.

use vstd::prelude::*;

use crate::geometry::Size;
use crate::land::Land;

verus! {

/// Fixed-point raw units per whole time unit.
pub const FP_ONE: u64 = 0x1_0000_0000;

/// A non-negative fixed-point number of time units, stored as raw units.
#[derive(Clone, Copy, PartialEq, Eq, Structural, Debug)]
pub struct FPNum {
    pub raw: u64,
}

impl FPNum {
    /// The zero duration.
    pub fn zero() -> (n: FPNum)
        ensures
            n.raw == 0,
    {
        FPNum { raw: 0 }
    }

    /// A whole number of time units.
    pub fn from_units(units: u32) -> (n: FPNum)
        ensures
            n.raw == units * FP_ONE,
    {
        FPNum { raw: (units as u64) * FP_ONE }
    }

    /// Sum modulo the clock width.
    pub open spec fn spec_wrapping_add(self, other: FPNum) -> FPNum {
        FPNum { raw: ((self.raw + other.raw) % (u64::MAX as int + 1)) as u64 }
    }

    /// Add two durations, wrapping around the clock width.
    pub fn wrapping_add(self, other: FPNum) -> (sum: FPNum)
        ensures
            sum == self.spec_wrapping_add(other),
    {
        if other.raw <= u64::MAX - self.raw {
            FPNum { raw: self.raw + other.raw }
        } else {
            FPNum { raw: self.raw - (u64::MAX - other.raw) - 1 }
        }
    }
}

/// The physics world instance: constructed against a logical size, advanced
/// one fixed-point time unit at a time against the current terrain.
#[derive(Clone, Copy, PartialEq, Eq, Structural, Debug)]
pub struct PhysicsWorld {
    pub size: Size,
    pub elapsed: FPNum,
}

impl PhysicsWorld {
    /// Clock state after advancing by `dt`.
    pub open spec fn spec_stepped(self, dt: FPNum) -> PhysicsWorld {
        PhysicsWorld { size: self.size, elapsed: self.elapsed.spec_wrapping_add(dt) }
    }

    /// A fresh physics world sized to a logical area, with the clock at zero.
    pub fn new(size: Size) -> (w: PhysicsWorld)
        ensures
            w.size == size,
            w.elapsed.raw == 0,
    {
        PhysicsWorld { size, elapsed: FPNum { raw: 0 } }
    }

    /// Advance the simulation by `dt`, reading the terrain for collision.
    /// The terrain is only read, never changed, and must be the one this
    /// world was sized against.
    pub fn step(&mut self, dt: FPNum, land: &Land<u32>)
        requires
            land@.wf(),
            land@.width == old(self).size.width,
            land@.height == old(self).size.height,
        ensures
            *final(self) == old(self).spec_stepped(dt),
    {
        self.elapsed = self.elapsed.wrapping_add(dt);
    }
}

} // verus!

//! The minimal weapon state the soldier's per-tick core touches: which
//! weapon is active and the timers a weapon switch resets.

use vstd::prelude::*;

verus! {

/// The weapon models a fresh soldier spawns with.
#[derive(Clone, Copy, PartialEq, Eq, Structural, Debug)]
pub enum WeaponKind {
    DesertEagles,
    Chainsaw,
    FragGrenade,
}

/// Per-weapon timers read and written by a weapon switch.
#[derive(Clone, Copy, PartialEq, Eq, Structural, Debug)]
pub struct Weapon {
    pub kind: WeaponKind,
    pub start_up_time: i32,
    pub start_up_time_count: i32,
    pub reload_time: i32,
    pub reload_time_count: i32,
    pub reload_time_prev: i32,
}

impl Weapon {
    /// A weapon of the given model with all timers cleared.
    pub fn new(kind: WeaponKind) -> (r: Weapon)
        ensures
            r.kind == kind,
            r.start_up_time == 0,
            r.start_up_time_count == 0,
            r.reload_time == 0,
            r.reload_time_count == 0,
            r.reload_time_prev == 0,
    {
        Weapon {
            kind,
            start_up_time: 0,
            start_up_time_count: 0,
            reload_time: 0,
            reload_time_count: 0,
            reload_time_prev: 0,
        }
    }
}

} // verus!

//! The shared world the soldier ticks against: the map and the
//! center-of-mass store for all soldiers.

use vstd::prelude::*;
use crate::mapfile::MapIndex;
use crate::parts::ParticleStore;

verus! {

pub struct MainState {
    pub map: MapIndex,
    pub soldier_parts: ParticleStore,
}

impl MainState {
    pub open spec fn wf(self) -> bool {
        &&& self.map.wf()
        &&& self.soldier_parts.wf()
    }
}

} // verus!

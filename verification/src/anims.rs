//! Animation clips: an identifier, a 1-based current frame, and per-joint
//! offsets relative to the clip's reference frame. Clip asset data is loaded
//! elsewhere; this module only stores it and advances the frame counter.

use vstd::prelude::*;
use crate::vec2::Vec2;
use crate::vec2::in_box;
use crate::vec2::vec2;

verus! {

/// Identifier of an animation clip.
#[derive(Clone, Copy, PartialEq, Eq, Structural, Debug)]
pub enum Anim {
    Stand,
    Crouch,
    Prone,
    ProneMove,
    GetUp,
    Fall,
    Mercy,
    Mercy2,
    Own,
    CrouchRun,
    CrouchRunBack,
    Reload,
    ReloadBow,
    ClipIn,
    ClipOut,
    SlideBack,
    Change,
    ThrowWeapon,
    Punch,
    Roll,
    RollBack,
    Cigar,
    Match,
    Smoke,
    Wipe,
    TakeOff,
    Groin,
    Piss,
    Victory,
    Melee,
    Throw,
}

/// One frame of a clip: an offset for every skeleton joint slot.
#[derive(Clone, Debug)]
pub struct AnimFrame {
    pub positions: Vec<Vec2>,
}

/// Every frame offers at least the fixed number of joint slots, each offset
/// within one hundred world units.
pub open spec fn frames_ok(frames: Seq<AnimFrame>) -> bool {
    forall|i: int|
        0 <= i < frames.len() ==> (#[trigger] frames[i].positions)@.len() >= 21 && (forall|j: int|
            0 <= j < frames[i].positions@.len() ==> in_box(
                #[trigger] frames[i].positions@[j],
                1_000_000,
            ))
}

/// The playing state of one clip.
#[derive(Clone, Debug)]
pub struct AnimState {
    pub id: Anim,
    /// Current frame, 1-based.
    pub frame: usize,
    /// Ticks spent on the current frame so far.
    pub count: usize,
    /// Ticks a frame lasts.
    pub speed: usize,
    pub looped: bool,
    pub frames: Vec<AnimFrame>,
}

impl AnimState {
    pub open spec fn wf(self) -> bool {
        &&& 1 <= self.frame <= self.frames@.len()
        &&& self.speed >= 1
        &&& self.count < self.speed
        &&& frames_ok(self.frames@)
    }

    /// The offset of joint slot `i` in the current frame.
    pub open spec fn pos_spec(self, i: int) -> Vec2 {
        self.frames@[self.frame - 1].positions@[i]
    }

    /// Tick count after one animation step.
    pub open spec fn next_count(self) -> int {
        if self.count + 1 == self.speed {
            0
        } else {
            self.count + 1
        }
    }

    /// Frame number after one animation step: frames advance every `speed`
    /// ticks, and the final frame either wraps to the first or holds.
    pub open spec fn next_frame(self) -> int {
        if self.count + 1 == self.speed {
            if self.frame == self.frames@.len() {
                if self.looped {
                    1
                } else {
                    self.frame as int
                }
            } else {
                self.frame + 1
            }
        } else {
            self.frame as int
        }
    }

    /// A one-frame placeholder clip with zero offsets for every joint slot.
    pub fn new(id: Anim) -> (r: AnimState)
        ensures
            r.wf(),
            r.id == id,
            r.frame == 1,
            r.count == 0,
            r.speed == 1,
            !r.looped,
            r.frames@.len() == 1,
            forall|j: int| 0 <= j < 21 ==> r.pos_spec(j) == (Vec2 { x: 0, y: 0 }),
    {
        let mut positions: Vec<Vec2> = Vec::new();
        let mut j: usize = 0;
        while j < 21
            invariant
                j <= 21,
                positions@.len() == j,
                forall|k: int| 0 <= k < j ==> positions@[k] == (Vec2 { x: 0, y: 0 }),
            decreases 21 - j,
        {
            positions.push(vec2(0, 0));
            j += 1;
        }
        let mut frames: Vec<AnimFrame> = Vec::new();
        frames.push(AnimFrame { positions });
        AnimState { id, frame: 1, count: 0, speed: 1, looped: false, frames }
    }

    /// A clip over the given frame data.
    pub fn with_frames(id: Anim, frames: Vec<AnimFrame>, speed: usize, looped: bool) -> (r:
        AnimState)
        requires
            frames@.len() >= 1,
            speed >= 1,
            frames_ok(frames@),
        ensures
            r.wf(),
            r.id == id,
            r.frame == 1,
            r.count == 0,
            r.speed == speed,
            r.looped == looped,
            r.frames == frames,
    {
        AnimState { id, frame: 1, count: 0, speed, looped, frames }
    }

    /// The offset of joint slot `i` in the current frame.
    pub fn pos(&self, i: usize) -> (r: Vec2)
        requires
            self.wf(),
            i < 21,
        ensures
            r == self.pos_spec(i as int),
            in_box(r, 1_000_000),
    {
        let f: &AnimFrame = &self.frames[self.frame - 1];
        f.positions[i]
    }

    /// Advance the clip by one tick.
    pub fn do_animation(&mut self)
        requires
            old(self).wf(),
        ensures
            final(self).wf(),
            final(self).id == old(self).id,
            final(self).speed == old(self).speed,
            final(self).looped == old(self).looped,
            final(self).frames == old(self).frames,
            final(self).frame == old(self).next_frame(),
            final(self).count == old(self).next_count(),
    {
        self.count += 1;
        if self.count == self.speed {
            self.count = 0;
            if self.frame == self.frames.len() {
                if self.looped {
                    self.frame = 1;
                }
            } else {
                self.frame += 1;
            }
        }
    }

    /// Whether the clip's identifier is among `ids`.
    pub fn is_any(&self, ids: &[Anim]) -> (r: bool)
        ensures
            r == ids@.contains(self.id),
    {
        let mut k: usize = 0;
        while k < ids.len()
            invariant
                k <= ids@.len(),
                forall|t: int| 0 <= t < k ==> ids@[t] != self.id,
            decreases ids@.len() - k,
        {
            if ids[k] == self.id {
                assert(ids@[k as int] == self.id);
                return true;
            }
            k += 1;
        }
        false
    }
}

/// `a1` is `a0` advanced by exactly one tick: same clip, next frame counter.
pub open spec fn advanced_once(a0: AnimState, a1: AnimState) -> bool {
    &&& a1.id == a0.id
    &&& a1.speed == a0.speed
    &&& a1.looped == a0.looped
    &&& a1.frames == a0.frames
    &&& a1.frame == a0.next_frame()
    &&& a1.count == a0.next_count()
}

} // verus!

//! The soldier: per-tick physics, the four collision probes against the map,
//! ground classification with hysteresis, and skeleton pose synthesis.

use vstd::prelude::*;
use crate::anims::Anim;
use crate::anims::AnimState;
use crate::control::Control;
use crate::control::KeyboardInput;
use crate::control::KeyCode;
use crate::control::KeyState;
use crate::control::MouseButton;
use crate::fx::FX_ONE;
use crate::fx::fmul;
use crate::fx::fmul_spec;
use crate::fx::iabs;
use crate::mapfile::MapIndex;
use crate::mapfile::Polygon;
use crate::mapfile::PolyType;
use crate::mapfile::collidable;
use crate::mapfile::lethal;
use crate::parts::ParticleStore;
use crate::parts::ParticleSystem;
use crate::state::MainState;
use crate::vec2::Vec2;
use crate::vec2::in_box;
use crate::vec2::len_i;
use crate::vec2::norm_xi;
use crate::vec2::norm_yi;
use crate::vec2::vec2;
use crate::weapons::Weapon;
use crate::weapons::WeaponKind;

verus! {

/// Horizontal speed below which the soldier is considered planted rather
/// than sliding.
pub const SLIDELIMIT: i64 = 2_000;

/// Gravity pull cancelled when footing is restored.
pub const GRAV: i64 = 600;

/// Default surface friction per axis.
pub const SURFACECOEFX: i64 = 9_700;

pub const SURFACECOEFY: i64 = 9_700;

/// Friction while crouch-running.
pub const CROUCHMOVESURFACECOEFX: i64 = 8_500;

pub const CROUCHMOVESURFACECOEFY: i64 = 9_700;

/// Friction while standing: motion stops outright.
pub const STANDSURFACECOEFX: i64 = 0;

pub const STANDSURFACECOEFY: i64 = 0;

pub const POS_STAND: u8 = 1;

pub const POS_CROUCH: u8 = 2;

pub const POS_PRONE: u8 = 3;

/// Per-axis velocity cap enforced at the end of every tick.
pub const MAX_VELOCITY: i64 = 110_000;

/// Radius of the circle approximating the soldier's body.
pub const SOLDIER_COL_RADIUS: i64 = 30_000;

/// Bound on soldier and map coordinates the probes accept.
pub const WORLD_BOX: i64 = 100_000_000;

/// The soldier's one-way life state.
#[derive(Clone, Copy, PartialEq, Eq, Structural, Debug)]
pub enum Lifecycle {
    Alive,
    HalfDead,
    Dead,
}

/// A playable character bound to one slot of the shared particle store.
pub struct Soldier {
    pub active: bool,
    pub lifecycle: Lifecycle,
    pub style: u8,
    /// Slot in the shared `ParticleStore`.
    pub num: usize,
    pub visible: u8,
    pub on_ground: bool,
    pub on_ground_for_law: bool,
    pub on_ground_last_frame: bool,
    pub on_ground_permanent: bool,
    /// Facing: `1` toward positive x, `-1` toward negative x.
    pub direction: i8,
    pub old_direction: i8,
    pub health: i64,
    pub alpha: u8,
    pub jets_count: i32,
    pub jets_count_prev: i32,
    pub wear_helmet: u8,
    pub has_cigar: u8,
    pub vest: i64,
    pub idle_time: i32,
    pub idle_random: i8,
    /// Stance: `POS_STAND`, `POS_CROUCH` or `POS_PRONE`.
    pub position: u8,
    pub on_fire: u8,
    pub collider_distance: u8,
    pub skeleton: ParticleSystem,
    pub legs_animation: AnimState,
    pub body_animation: AnimState,
    pub control: Control,
    pub active_weapon: usize,
    pub weapons: Vec<Weapon>,
    pub fired: u8,
}

/// The sector cell `(rx, ry)` lies inside the grid extent.
pub open spec fn sector_ok(m: MapIndex, rx: int, ry: int) -> bool {
    0 < rx && rx < m.sectors_num + 25 && 0 < ry && ry < m.sectors_num + 25
}

/// The candidate polygon ids registered in sector cell `(rx, ry)`.
pub open spec fn cands(m: MapIndex, rx: int, ry: int) -> Seq<usize> {
    m.sectors_poly@[rx]@[ry]@
}

/// Distance from `(px, py)` to the point `v`, rounded down.
pub open spec fn dist_i(v: Vec2, px: int, py: int) -> int {
    len_i(px - v.x, py - v.y)
}

/// The first candidate from position `k` on whose polygon both collides and
/// holds `(px, py)` strictly inside, if any.
pub open spec fn first_hit(m: MapIndex, cs: Seq<usize>, k: int, px: int, py: int) -> Option<int>
    decreases cs.len() - k,
{
    if k < 0 || k >= cs.len() {
        None
    } else {
        let p = m.polygons@[cs[k] - 1];
        if collidable(p.polytype) && crate::mapfile::pip_strict(p, px, py) {
            Some(k)
        } else {
            first_hit(m, cs, k + 1, px, py)
        }
    }
}

/// The first candidate and vertex (1 to 3) from position `k` on with the
/// vertex within `r` of `(px, py)`, the polygon colliding.
pub open spec fn first_vert_hit(m: MapIndex, cs: Seq<usize>, k: int, px: int, py: int, r: int)
    -> Option<(int, int)>
    decreases cs.len() - k,
{
    if k < 0 || k >= cs.len() {
        None
    } else {
        let p = m.polygons@[cs[k] - 1];
        if collidable(p.polytype) && dist_i(p.v1, px, py) < r {
            Some((k, 1))
        } else if collidable(p.polytype) && dist_i(p.v2, px, py) < r {
            Some((k, 2))
        } else if collidable(p.polytype) && dist_i(p.v3, px, py) < r {
            Some((k, 3))
        } else {
            first_vert_hit(m, cs, k + 1, px, py, r)
        }
    }
}

/// The vertex of `p` numbered `k` (1 to 3).
pub open spec fn vert_of(p: Polygon, k: int) -> Vec2 {
    if k == 1 {
        p.v1
    } else if k == 2 {
        p.v2
    } else {
        p.v3
    }
}

impl Soldier {
    pub open spec fn wf(self) -> bool {
        &&& self.skeleton.wf()
        &&& self.skeleton.pos@.len() >= 31
        &&& self.legs_animation.wf()
        &&& self.body_animation.wf()
        &&& self.weapons@.len() == 3
        &&& self.active_weapon < 3
        &&& (self.direction == 1 || self.direction == -1)
    }

    /// The weapon in hand.
    pub fn primary_weapon(&self) -> (r: &Weapon)
        requires
            self.wf(),
        ensures
            *r == self.weapons@[self.active_weapon as int],
    {
        &self.weapons[self.active_weapon]
    }

    /// The holstered weapon of the two carried in hand slots.
    pub fn secondary_weapon(&self) -> (r: &Weapon)
        requires
            self.wf(),
        ensures
            *r == self.weapons@[(self.active_weapon + 1) % 2],
    {
        &self.weapons[(self.active_weapon + 1) % 2]
    }

    /// The thrown weapon.
    pub fn tertiary_weapon(&self) -> (r: &Weapon)
        requires
            self.wf(),
        ensures
            *r == self.weapons@[2],
    {
        &self.weapons[2]
    }

    /// Swap the two hand slots and restart the incoming weapon's timers.
    pub fn switch_weapon(&mut self)
        requires
            old(self).wf(),
        ensures
            final(self).wf(),
            final(self).active_weapon == (old(self).active_weapon + 1) % 2,
            ({
                let w = (old(self).active_weapon + 1) % 2;
                let ow = old(self).weapons@[w as int];
                final(self).weapons@ == old(self).weapons@.update(
                    w as int,
                    Weapon {
                        start_up_time_count: ow.start_up_time,
                        reload_time_prev: ow.reload_time_count,
                        ..ow
                    },
                )
            }),
            *final(self) == (Soldier {
                active_weapon: final(self).active_weapon,
                weapons: final(self).weapons,
                ..*old(self)
            }),
    {
        let w: usize = (self.active_weapon + 1) % 2;
        self.active_weapon = w;
        let mut wp: Weapon = self.weapons[w];
        wp.start_up_time_count = wp.start_up_time;
        wp.reload_time_prev = wp.reload_time_count;
        self.weapons[w] = wp;
    }

    /// Translate one keyboard event into the intent flags.
    #[verifier::rlimit(50)]
    pub fn update_keys(&mut self, input: &KeyboardInput)
        ensures
            final(self).control == keys_applied(old(self).control, *input),
            *final(self) == (Soldier { control: final(self).control, ..*old(self) }),
    {
        let pressed: bool = match input.state {
            KeyState::Pressed => true,
            KeyState::Released => false,
        };
        match input.virtual_keycode {
            Some(KeyCode::A) => self.control.left = pressed,
            Some(KeyCode::D) => self.control.right = pressed,
            Some(KeyCode::W) => self.control.up = pressed,
            Some(KeyCode::S) => self.control.down = pressed,
            Some(KeyCode::Q) => self.control.change = pressed,
            Some(KeyCode::E) => self.control.throw = pressed,
            Some(KeyCode::X) => self.control.prone = pressed,
            _ => {},
        }
    }

    /// Translate one mouse-button event into the fire and jet intents.
    pub fn update_mouse_button(&mut self, input: &(KeyState, MouseButton))
        ensures
            final(self).control == mouse_applied(old(self).control, *input),
            *final(self) == (Soldier { control: final(self).control, ..*old(self) }),
    {
        let pressed: bool = match input.0 {
            KeyState::Pressed => true,
            KeyState::Released => false,
        };
        match input.1 {
            MouseButton::Left => self.control.fire = pressed,
            MouseButton::Right => self.control.jets = pressed,
            MouseButton::Other => {},
        }
    }

    /// Replace the legs clip unless the legs are prone or already playing it.
    /// The caller supplies the loaded clip, pre-wound to `frame`.
    pub fn legs_apply_animation(&mut self, anim: AnimState, frame: usize)
        requires
            old(self).wf(),
            anim.wf(),
            1 <= frame <= anim.frames@.len(),
        ensures
            final(self).wf(),
            old(self).legs_animation.id == Anim::Prone || old(self).legs_animation.id
                == Anim::ProneMove || old(self).legs_animation.id == anim.id ==> *final(self)
                == *old(self),
            !(old(self).legs_animation.id == Anim::Prone || old(self).legs_animation.id
                == Anim::ProneMove || old(self).legs_animation.id == anim.id) ==> final(self).legs_animation == (AnimState { frame, ..anim }) && *final(self) == (Soldier {
                legs_animation: final(self).legs_animation,
                ..*old(self)
            }),
    {
        if !self.legs_animation.is_any(&[Anim::Prone, Anim::ProneMove]) && self.legs_animation.id
            != anim.id {
            self.legs_animation = anim;
            self.legs_animation.frame = frame;
        }
    }

    /// Replace the body clip unless it is already playing.
    /// The caller supplies the loaded clip, pre-wound to `frame`.
    pub fn body_apply_animation(&mut self, anim: AnimState, frame: usize)
        requires
            old(self).wf(),
            anim.wf(),
            1 <= frame <= anim.frames@.len(),
        ensures
            final(self).wf(),
            old(self).body_animation.id == anim.id ==> *final(self) == *old(self),
            old(self).body_animation.id != anim.id ==> final(self).body_animation == (AnimState {
                frame,
                ..anim
            }) && *final(self) == (Soldier { body_animation: final(self).body_animation, ..*old(self) }),
    {
        if self.body_animation.id != anim.id {
            self.body_animation = anim;
            self.body_animation.frame = frame;
        }
    }

    /// Touching deadly or explosive material teleports the soldier's particle
    /// back to the first spawn point.
    pub fn handle_special_polytypes(
        &mut self,
        state: &mut MainState,
        polytype: PolyType,
        _pos: Vec2,
    )
        requires
            old(self).wf(),
            old(state).wf(),
            old(self).num < old(state).soldier_parts.pos@.len(),
        ensures
            *final(self) == *old(self),
            final(state).map == old(state).map,
            final(state).soldier_parts.old_pos@ == old(state).soldier_parts.old_pos@,
            final(state).soldier_parts.velocity@ == old(state).soldier_parts.velocity@,
            final(state).soldier_parts.forces@ == old(state).soldier_parts.forces@,
            lethal(polytype) ==> final(state).soldier_parts.pos@ == old(state).soldier_parts.pos@.update(
                old(self).num as int,
                old(state).map.spawnpoints@[0],
            ),
            !lethal(polytype) ==> final(state).soldier_parts.pos@ == old(state).soldier_parts.pos@,
    {
        if polytype == PolyType::Deadly || polytype == PolyType::BloodyDeadly || polytype
            == PolyType::Explosive {
            let sp: Vec2 = self.spawn_point(state);
            state.soldier_parts.pos[self.num] = sp;
        }
    }

    /// The map's first spawn point.
    fn spawn_point(&self, state: &MainState) -> (r: Vec2)
        requires
            state.wf(),
        ensures
            r == state.map.spawnpoints@[0],
            in_box(r, WORLD_BOX as int),
    {
        state.map.spawnpoints[0]
    }
}

/// The intent flags after one keyboard event.
pub open spec fn keys_applied(c: Control, inp: KeyboardInput) -> Control {
    let v = inp.state == KeyState::Pressed;
    match inp.virtual_keycode {
        Some(KeyCode::A) => Control { left: v, ..c },
        Some(KeyCode::D) => Control { right: v, ..c },
        Some(KeyCode::W) => Control { up: v, ..c },
        Some(KeyCode::S) => Control { down: v, ..c },
        Some(KeyCode::Q) => Control { change: v, ..c },
        Some(KeyCode::E) => Control { throw: v, ..c },
        Some(KeyCode::X) => Control { prone: v, ..c },
        _ => c,
    }
}

/// The intent flags after one mouse-button event.
pub open spec fn mouse_applied(c: Control, inp: (KeyState, MouseButton)) -> Control {
    let v = inp.0 == KeyState::Pressed;
    match inp.1 {
        MouseButton::Left => Control { fire: v, ..c },
        MouseButton::Right => Control { jets: v, ..c },
        MouseButton::Other => c,
    }
}

/// The slot's numeric state: position, previous position, velocity, force.
pub struct SlotView {
    pub px: int,
    pub py: int,
    pub opx: int,
    pub opy: int,
    pub vx: int,
    pub vy: int,
    pub fx: int,
    pub fy: int,
}

/// The numeric state of slot `n`.
pub open spec fn slot_view(ps: ParticleStore, n: int) -> SlotView {
    SlotView {
        px: ps.pos@[n].x as int,
        py: ps.pos@[n].y as int,
        opx: ps.old_pos@[n].x as int,
        opy: ps.old_pos@[n].y as int,
        vx: ps.velocity@[n].x as int,
        vy: ps.velocity@[n].y as int,
        fx: ps.forces@[n].x as int,
        fy: ps.forces@[n].y as int,
    }
}

/// Sum of the components' magnitudes: an upper bound on the speed.
pub open spec fn l1v(v: Vec2) -> int {
    iabs(v.x as int) + iabs(v.y as int)
}

/// The legs clips during which a planted soldier is damped as standing.
pub open spec fn standing_anim(a: Anim) -> bool {
    ||| a == Anim::Stand
    ||| a == Anim::Crouch
    ||| a == Anim::Prone
    ||| a == Anim::ProneMove
    ||| a == Anim::GetUp
    ||| a == Anim::Fall
    ||| a == Anim::Mercy
    ||| a == Anim::Mercy2
    ||| a == Anim::Own
}

/// Velocity stopped outright, the lost motion booked against the force.
#[verifier::opaque]
pub open spec fn stand_damp(s: SlotView) -> SlotView {
    let vx = fmul_spec(s.vx, STANDSURFACECOEFX as int);
    let vy = fmul_spec(s.vy, STANDSURFACECOEFY as int);
    SlotView { vx, vy, fx: s.fx - vx, ..s }
}

/// Velocity scaled by the default surface friction.
#[verifier::opaque]
pub open spec fn surface_damp(s: SlotView) -> SlotView {
    SlotView {
        vx: fmul_spec(s.vx, SURFACECOEFX as int),
        vy: fmul_spec(s.vy, SURFACECOEFY as int),
        ..s
    }
}

/// The stance- and material-dependent damping applied by a probe in probe
/// mode, given the raw edge normal's vertical component `step_y`.
#[verifier::opaque]
pub open spec fn cmc_damping(
    s: SlotView,
    poly: Polygon,
    legs_id: Anim,
    legs_frame: int,
    down: bool,
    left: bool,
    right: bool,
    step_y: int,
) -> SlotView {
    if standing_anim(legs_id) {
        let s2 = if -SLIDELIMIT < s.vx && s.vx < SLIDELIMIT && step_y > SLIDELIMIT {
            SlotView { px: s.opx, py: s.opy, fy: s.fy - GRAV, ..s }
        } else {
            s
        };
        if step_y > SLIDELIMIT && poly.polytype != PolyType::Ice && poly.polytype
            != PolyType::Bouncy {
            if legs_id == Anim::Stand || legs_id == Anim::Fall || legs_id == Anim::Crouch {
                stand_damp(s2)
            } else if legs_id == Anim::Prone {
                if legs_frame > 24 {
                    if !(down && (left || right)) {
                        stand_damp(s2)
                    } else {
                        s2
                    }
                } else {
                    surface_damp(s2)
                }
            } else if legs_id == Anim::GetUp {
                surface_damp(s2)
            } else if legs_id == Anim::ProneMove {
                SlotView {
                    vx: fmul_spec(s2.vx, STANDSURFACECOEFX as int),
                    vy: fmul_spec(s2.vy, STANDSURFACECOEFY as int),
                    ..s2
                }
            } else {
                s2
            }
        } else {
            s2
        }
    } else if legs_id == Anim::CrouchRun || legs_id == Anim::CrouchRunBack {
        SlotView {
            vx: fmul_spec(s.vx, CROUCHMOVESURFACECOEFX as int),
            vy: fmul_spec(s.vy, CROUCHMOVESURFACECOEFY as int),
            ..s
        }
    } else {
        surface_damp(s)
    }
}

/// The slot after a map-collision hit against `poly` at probe point
/// `(px, py)`: the penetration correction clamped to the current speed,
/// restitution on bouncy material, and in probe mode (`area == 0`) the
/// stance damping.
#[verifier::opaque]
pub open spec fn cmc_response(
    s: SlotView,
    poly: Polygon,
    spawn: Vec2,
    legs_id: Anim,
    legs_frame: int,
    down: bool,
    left: bool,
    right: bool,
    area: int,
    px: int,
    py: int,
) -> SlotView {
    let s0 = if lethal(poly.polytype) {
        SlotView { px: spawn.x as int, py: spawn.y as int, ..s }
    } else {
        s
    };
    let sel = crate::mapfile::cp_sel(poly, px, py);
    let d0 = crate::mapfile::cp_dist(poly, px, py);
    let step = crate::mapfile::perp_of(poly, sel);
    let pax = fmul_spec(norm_xi(step.x as int, step.y as int), d0);
    let pay = fmul_spec(norm_yi(step.x as int, step.y as int), d0);
    let speed = len_i(s.vx, s.vy);
    let pbx = if len_i(pax, pay) > speed {
        fmul_spec(norm_xi(pax, pay), speed)
    } else {
        pax
    };
    let pby = if len_i(pax, pay) > speed {
        fmul_spec(norm_yi(pax, pay), speed)
    } else {
        pay
    };
    let apply = area == 0 || (area == 1 && (s.vy < 0 || s.vx > SLIDELIMIT || s.vx < -SLIDELIMIT));
    let s1 = if apply {
        let scale = fmul_spec(poly.bounciness as int, speed);
        let pcx = if poly.polytype == PolyType::Bouncy {
            fmul_spec(norm_xi(pbx, pby), scale)
        } else {
            pbx
        };
        let pcy = if poly.polytype == PolyType::Bouncy {
            fmul_spec(norm_yi(pbx, pby), scale)
        } else {
            pby
        };
        SlotView {
            opx: s0.px,
            opy: s0.py,
            px: s0.px - pbx,
            py: s0.py - pby,
            vx: s.vx - pcx,
            vy: s.vy - pcy,
            ..s0
        }
    } else {
        s0
    };
    if area == 0 {
        cmc_damping(s1, poly, legs_id, legs_frame, down, left, right, step.y as int)
    } else {
        s1
    }
}


/// What one map-collision probe promises: the hit flag reports whether the
/// prospective position lies inside a colliding candidate polygon of its
/// sector cell, a miss leaves the world untouched, and a hit rewrites the
/// soldier's slot exactly as [`cmc_response`] says.
#[verifier::opaque]
pub open spec fn cmc_post(
    s: Soldier,
    pre: MainState,
    post: MainState,
    x: int,
    y: int,
    area: int,
    hit: bool,
) -> bool {
    let m = pre.map;
    let num = s.num as int;
    let vel = pre.soldier_parts.velocity@[num];
    let px = x + vel.x;
    let py = y + vel.y;
    let rx = m.sector_coord_spec(px);
    let ry = m.sector_coord_spec(py);
    let found = sector_ok(m, rx, ry) && first_hit(m, cands(m, rx, ry), 0, px, py) is Some;
    &&& hit == found
    &&& !found ==> post == pre
    &&& (found ==> slot_view(post.soldier_parts, num) == cmc_response(
        slot_view(pre.soldier_parts, num),
        m.polygons@[cands(m, rx, ry)[first_hit(m, cands(m, rx, ry), 0, px, py)->0] - 1],
        m.spawnpoints@[0],
        s.legs_animation.id,
        s.legs_animation.frame as int,
        s.control.down,
        s.control.left,
        s.control.right,
        area,
        px,
        py,
    ))
}


/// The clips during which the soldier does not aim: while one plays, the
/// animation alone drives the hand joints.
pub open spec fn not_aiming_set() -> Seq<Anim> {
    seq![
        Anim::Reload,
        Anim::ReloadBow,
        Anim::ClipIn,
        Anim::ClipOut,
        Anim::SlideBack,
        Anim::Change,
        Anim::ThrowWeapon,
        Anim::Punch,
        Anim::Roll,
        Anim::RollBack,
        Anim::Cigar,
        Anim::Match,
        Anim::Smoke,
        Anim::Wipe,
        Anim::TakeOff,
        Anim::Groin,
        Anim::Piss,
        Anim::Mercy,
        Anim::Mercy2,
        Anim::Victory,
        Anim::Own,
        Anim::Melee,
    ]
}

/// Whether clip `a` suppresses the aim override of the hand joints.
pub open spec fn not_aiming(a: Anim) -> bool {
    not_aiming_set().contains(a)
}

impl Soldier {
    /// Probe the map with the prospective position `(x, y) + velocity`; on a
    /// hit against the first colliding candidate polygon, correct position
    /// and velocity by the clamped penetration vector, with restitution on
    /// bouncy material and stance damping in probe mode.
    #[verifier::rlimit(80)]
    pub fn check_map_collision(&mut self, state: &mut MainState, x: i64, y: i64, area: i32) -> (hit:
        bool)
        requires
            old(self).wf(),
            old(state).wf(),
            old(self).num < old(state).soldier_parts.pos@.len(),
            iabs(x as int) <= 160_000_000,
            iabs(y as int) <= 160_000_000,
            in_box(old(state).soldier_parts.pos@[old(self).num as int], 150_000_000),
            in_box(old(state).soldier_parts.old_pos@[old(self).num as int], 150_000_000),
            in_box(old(state).soldier_parts.velocity@[old(self).num as int], 100_000_000),
            in_box(old(state).soldier_parts.forces@[old(self).num as int], 100_000_000),
        ensures
            *final(self) == *old(self),
            final(state).map == old(state).map,
            final(state).soldier_parts.pos@.len() == old(state).soldier_parts.pos@.len(),
            final(state).soldier_parts.wf(),
            final(state).soldier_parts.pos@ == old(state).soldier_parts.pos@.update(old(self).num as int, final(state).soldier_parts.pos@[old(self).num as int]),
            final(state).soldier_parts.old_pos@ == old(state).soldier_parts.old_pos@.update(old(self).num as int, final(state).soldier_parts.old_pos@[old(self).num as int]),
            final(state).soldier_parts.velocity@ == old(state).soldier_parts.velocity@.update(old(self).num as int, final(state).soldier_parts.velocity@[old(self).num as int]),
            final(state).soldier_parts.forces@ == old(state).soldier_parts.forces@.update(old(self).num as int, final(state).soldier_parts.forces@[old(self).num as int]),
            cmc_post(*old(self), *old(state), *final(state), x as int, y as int, area as int, hit),
            ({
                let num = old(self).num as int;
                let vel = old(state).soldier_parts.velocity@[num];
                let pos0 = old(state).soldier_parts.pos@[num];
                let f0 = old(state).soldier_parts.forces@[num];
                &&& iabs(final(state).soldier_parts.pos@[num].x as int) <= (if iabs(
                    pos0.x as int,
                ) <= WORLD_BOX as int {
                    WORLD_BOX as int
                } else {
                    iabs(pos0.x as int)
                }) + l1v(vel)
                &&& iabs(final(state).soldier_parts.pos@[num].y as int) <= (if iabs(
                    pos0.y as int,
                ) <= WORLD_BOX as int {
                    WORLD_BOX as int
                } else {
                    iabs(pos0.y as int)
                }) + l1v(vel)
                &&& in_box(final(state).soldier_parts.old_pos@[num], 150_000_000)
                &&& iabs(final(state).soldier_parts.velocity@[num].x as int) <= iabs(vel.x as int)
                    + l1v(vel)
                &&& iabs(final(state).soldier_parts.velocity@[num].y as int) <= iabs(vel.y as int)
                    + l1v(vel)
                &&& iabs(final(state).soldier_parts.forces@[num].x as int) <= iabs(f0.x as int)
                    + iabs(vel.x as int) + l1v(vel)
                &&& iabs(final(state).soldier_parts.forces@[num].y as int) <= iabs(f0.y as int)
                    + GRAV
            }),
    {
        proof {
            reveal(crate::soldier::cmc_response);
            reveal(crate::soldier::cmc_post);
        }
        let num: usize = self.num;
        let vel: Vec2 = state.soldier_parts.velocity[num];
        let pos: Vec2 = vec2(x + vel.x, y + vel.y);
        let rx: i64 = state.map.sector_coord(pos.x);
        let ry: i64 = state.map.sector_coord(pos.y);
        if rx > 0 && rx < state.map.sectors_num + 25 && ry > 0 && ry < state.map.sectors_num + 25 {
            let rxu: usize = rx as usize;
            let ryu: usize = ry as usize;
            let n: usize = state.map.sectors_poly[rxu][ryu].len();
            let ghost cs = cands(state.map, rx as int, ry as int);
            let mut j: usize = 0;
            while j < n
                invariant
                    old(self).wf(),
                    old(state).wf(),
                    *self == *old(self),
                    *state == *old(state),
                    num == old(self).num < old(state).soldier_parts.pos@.len(),
                    vel == old(state).soldier_parts.velocity@[num as int],
                    pos.x == x + vel.x,
                    pos.y == y + vel.y,
                    iabs(x as int) <= 160_000_000,
                    iabs(y as int) <= 160_000_000,
                    in_box(vel, 100_000_000),
                    in_box(pos, 300_000_000),
                    in_box(old(state).soldier_parts.pos@[num as int], 150_000_000),
                    in_box(old(state).soldier_parts.old_pos@[num as int], 150_000_000),
                    in_box(old(state).soldier_parts.forces@[num as int], 100_000_000),
                    rx as int == old(state).map.sector_coord_spec(pos.x as int),
                    ry as int == old(state).map.sector_coord_spec(pos.y as int),
                    sector_ok(old(state).map, rx as int, ry as int),
                    0 <= rxu == rx,
                    0 <= ryu == ry,
                    cs == cands(old(state).map, rx as int, ry as int),
                    n == cs.len(),
                    j <= n,
                    first_hit(old(state).map, cs, 0, pos.x as int, pos.y as int) == first_hit(
                        old(state).map,
                        cs,
                        j as int,
                        pos.x as int,
                        pos.y as int,
                    ),
                decreases n - j,
            {
                let polyid: usize = state.map.sectors_poly[rxu][ryu][j];
                let poly: Polygon = state.map.polygons[polyid - 1];
                let polytype: PolyType = poly.polytype;
                if polytype != PolyType::NoCollide && polytype != PolyType::OnlyBulletsCollide {
                    if state.map.point_in_poly(pos, &poly) {
                        proof {
                            reveal(crate::soldier::cmc_response);
                            reveal(crate::soldier::cmc_post);
                            assert(first_hit(old(state).map, cs, j as int, pos.x as int,
                                pos.y as int) == Some(j as int));
                        }
                        self.handle_special_polytypes(state, polytype, pos);
                        proof {
                            assert(in_box(old(state).map.spawnpoints@[0], 100_000_000));
                            assert(in_box(state.soldier_parts.pos@[num as int], 150_000_000));
                        }
                        let q: (Vec2, i64, i32) = state.map.closest_perpendicular(polyid - 1, pos);
                        let step: Vec2 = q.0;
                        let d0: i64 = q.1;
                        proof {
                            assert(0 <= d0 <= 1_600_000_002);
                        }
                        let nrm: Vec2 = step.normalized();
                        proof {
                            crate::fx::lemma_unit_scale_bound(nrm.x as int, d0 as int,
                                1_600_000_002);
                            crate::fx::lemma_unit_scale_bound(nrm.y as int, d0 as int,
                                1_600_000_002);
                        }
                        let perp_a: Vec2 = nrm.scaled(d0);
                        let speed: i64 = vel.length();
                        proof {
                            crate::vec2::lemma_length_bounds(vel.x as int, vel.y as int);
                        }
                        let lenpa: i64 = perp_a.length();
                        let perp_b: Vec2 = if lenpa > speed {
                            let un: Vec2 = perp_a.normalized();
                            proof {
                                crate::fx::lemma_unit_scale_bound(un.x as int, speed as int,
                                    speed as int);
                                crate::fx::lemma_unit_scale_bound(un.y as int, speed as int,
                                    speed as int);
                            }
                            un.scaled(speed)
                        } else {
                            perp_a
                        };
                        proof {
                            assert(iabs(perp_b.x as int) <= speed && iabs(perp_b.y as int)
                                <= speed);
                            assert(in_box(perp_b, 200_000_000));
                        }
                        let apply: bool = area == 0 || (area == 1 && (vel.y < 0 || vel.x
                            > SLIDELIMIT || vel.x < -SLIDELIMIT));
                        if apply {
                            let cur: Vec2 = state.soldier_parts.pos[num];
                            state.soldier_parts.old_pos[num] = cur;
                            state.soldier_parts.pos[num] = vec2(cur.x - perp_b.x, cur.y - perp_b.y);
                            let perp_c: Vec2 = if polytype == PolyType::Bouncy {
                                proof {
                                    crate::fx::lemma_unit_scale_bound(poly.bounciness as int,
                                        speed as int, speed as int);
                                }
                                let scale: i64 = fmul(poly.bounciness, speed);
                                let ub: Vec2 = perp_b.normalized();
                                proof {
                                    crate::fx::lemma_unit_scale_bound(ub.x as int, scale as int,
                                        speed as int);
                                    crate::fx::lemma_unit_scale_bound(ub.y as int, scale as int,
                                        speed as int);
                                }
                                ub.scaled(scale)
                            } else {
                                perp_b
                            };
                            proof {
                                assert(iabs(perp_c.x as int) <= speed && iabs(perp_c.y as int)
                                    <= speed);
                            }
                            state.soldier_parts.velocity[num] = vec2(
                                vel.x - perp_c.x,
                                vel.y - perp_c.y,
                            );
                        }
                        if area == 0 {
                            self.apply_surface_damping(state, &poly, step.y);
                        }
                        proof {
                            assert forall|jj: int|
                                0 <= jj < old(state).soldier_parts.pos@.len() && jj
                                    != num as int implies #[trigger] state.soldier_parts.pos@[jj]
                                == old(state).soldier_parts.pos@[jj] by {}
                            assert forall|jj: int|
                                0 <= jj < old(state).soldier_parts.pos@.len() && jj
                                    != num as int implies #[trigger] state.soldier_parts.old_pos@[jj] == old(state).soldier_parts.old_pos@[jj] by {}
                            assert forall|jj: int|
                                0 <= jj < old(state).soldier_parts.pos@.len() && jj
                                    != num as int implies #[trigger] state.soldier_parts.velocity@[jj] == old(state).soldier_parts.velocity@[jj] by {
                                assert(state.soldier_parts.pos@[jj] == state.soldier_parts.pos@[jj]);
                            }
                            assert forall|jj: int|
                                0 <= jj < old(state).soldier_parts.pos@.len() && jj
                                    != num as int implies #[trigger] state.soldier_parts.forces@[jj] == old(state).soldier_parts.forces@[jj] by {
                                assert(state.soldier_parts.pos@[jj] == state.soldier_parts.pos@[jj]);
                            }
                            assert(state.soldier_parts.pos@ =~= old(state).soldier_parts.pos@.update(num as int, state.soldier_parts.pos@[num as int]));
                            assert(state.soldier_parts.old_pos@ =~= old(state).soldier_parts.old_pos@.update(num as int, state.soldier_parts.old_pos@[num as int]));
                            assert(state.soldier_parts.velocity@ =~= old(state).soldier_parts.velocity@.update(num as int, state.soldier_parts.velocity@[num as int]));
                            assert(state.soldier_parts.forces@ =~= old(state).soldier_parts.forces@.update(num as int, state.soldier_parts.forces@[num as int]));
                        }
                        return true;
                    }
                }
                j += 1;
            }
        }
        false
    }

    /// The stance damping of a probe-mode hit: reads and rewrites the
    /// soldier's slot so that it matches [`cmc_damping`].
    #[verifier::rlimit(60)]
    fn apply_surface_damping(&self, state: &mut MainState, poly: &Polygon, step_y: i64)
        requires
            self.wf(),
            old(state).soldier_parts.wf(),
            self.num < old(state).soldier_parts.pos@.len(),
            in_box(old(state).soldier_parts.velocity@[self.num as int], 2_000_000_000),
            in_box(old(state).soldier_parts.forces@[self.num as int], 2_000_000_000),
        ensures
            final(state).map == old(state).map,
            final(state).soldier_parts.wf(),
            final(state).soldier_parts.pos@.len() == old(state).soldier_parts.pos@.len(),
            forall|j: int|
                0 <= j < old(state).soldier_parts.pos@.len() && j != self.num
                    ==> #[trigger] final(state).soldier_parts.pos@[j] == old(state).soldier_parts.pos@[j],
            forall|j: int|
                0 <= j < old(state).soldier_parts.pos@.len() && j != self.num
                    ==> #[trigger] final(state).soldier_parts.velocity@[j] == old(state).soldier_parts.velocity@[j],
            forall|j: int|
                0 <= j < old(state).soldier_parts.pos@.len() && j != self.num
                    ==> #[trigger] final(state).soldier_parts.forces@[j] == old(state).soldier_parts.forces@[j],
            final(state).soldier_parts.old_pos@ == old(state).soldier_parts.old_pos@,
            slot_view(final(state).soldier_parts, self.num as int) == cmc_damping(
                slot_view(old(state).soldier_parts, self.num as int),
                *poly,
                self.legs_animation.id,
                self.legs_animation.frame as int,
                self.control.down,
                self.control.left,
                self.control.right,
                step_y as int,
            ),
            ({
                let s = slot_view(old(state).soldier_parts, self.num as int);
                let t = slot_view(final(state).soldier_parts, self.num as int);
                &&& iabs(t.vx) <= iabs(s.vx)
                &&& iabs(t.vy) <= iabs(s.vy)
                &&& iabs(t.fx) <= iabs(s.fx) + iabs(s.vx)
                &&& iabs(t.fy) <= iabs(s.fy) + GRAV
                &&& (t.px == s.px || t.px == s.opx)
                &&& (t.py == s.py || t.py == s.opy)
            }),
    {
        proof {
            reveal(crate::soldier::cmc_damping);
            reveal(crate::soldier::stand_damp);
            reveal(crate::soldier::surface_damp);
        }
        let num: usize = self.num;
        let vel: Vec2 = state.soldier_parts.velocity[num];
        proof {
            crate::fx::lemma_fmul_bound(vel.x as int, SURFACECOEFX as int, iabs(vel.x as int),
                FX_ONE as int);
            crate::fx::lemma_fmul_bound(vel.y as int, SURFACECOEFY as int, iabs(vel.y as int),
                FX_ONE as int);
            crate::fx::lemma_fmul_bound(vel.x as int, CROUCHMOVESURFACECOEFX as int,
                iabs(vel.x as int), FX_ONE as int);
            crate::fx::lemma_fmul_bound(vel.y as int, CROUCHMOVESURFACECOEFY as int,
                iabs(vel.y as int), FX_ONE as int);
            crate::fx::lemma_fmul_bound(vel.x as int, STANDSURFACECOEFX as int, iabs(vel.x as int),
                FX_ONE as int);
            crate::fx::lemma_fmul_bound(vel.y as int, STANDSURFACECOEFY as int, iabs(vel.y as int),
                FX_ONE as int);
            assert(iabs(vel.x as int) * (FX_ONE as int) / (FX_ONE as int) == iabs(vel.x as int)
                && iabs(vel.y as int) * (FX_ONE as int) / (FX_ONE as int) == iabs(vel.y as int))
                by (nonlinear_arith);
        }
        if self.legs_animation.is_any(
            &[
                Anim::Stand,
                Anim::Crouch,
                Anim::Prone,
                Anim::ProneMove,
                Anim::GetUp,
                Anim::Fall,
                Anim::Mercy,
                Anim::Mercy2,
                Anim::Own,
            ],
        ) {
            if vel.x < SLIDELIMIT && vel.x > -SLIDELIMIT && step_y > SLIDELIMIT {
                let op: Vec2 = state.soldier_parts.old_pos[num];
                state.soldier_parts.pos[num] = op;
                let f: Vec2 = state.soldier_parts.forces[num];
                state.soldier_parts.forces[num] = vec2(f.x, f.y - GRAV);
            }
            if step_y > SLIDELIMIT && poly.polytype != PolyType::Ice && poly.polytype
                != PolyType::Bouncy {
                let id: Anim = self.legs_animation.id;
                if id == Anim::Stand || id == Anim::Fall || id == Anim::Crouch {
                    self.stand_damp_slot(state);
                } else if id == Anim::Prone {
                    if self.legs_animation.frame > 24 {
                        if !(self.control.down && (self.control.left || self.control.right)) {
                            self.stand_damp_slot(state);
                        }
                    } else {
                        self.surface_damp_slot(state);
                    }
                } else if id == Anim::GetUp {
                    self.surface_damp_slot(state);
                } else if id == Anim::ProneMove {
                    let v: Vec2 = state.soldier_parts.velocity[num];
                    state.soldier_parts.velocity[num] = vec2(
                        fmul(v.x, STANDSURFACECOEFX),
                        fmul(v.y, STANDSURFACECOEFY),
                    );
                }
            }
        } else if self.legs_animation.is_any(&[Anim::CrouchRun, Anim::CrouchRunBack]) {
            let v: Vec2 = state.soldier_parts.velocity[num];
            state.soldier_parts.velocity[num] = vec2(
                fmul(v.x, CROUCHMOVESURFACECOEFX),
                fmul(v.y, CROUCHMOVESURFACECOEFY),
            );
        } else {
            self.surface_damp_slot(state);
        }
    }

    /// Stop the velocity and book the lost x motion against the force.
    fn stand_damp_slot(&self, state: &mut MainState)
        requires
            old(state).soldier_parts.wf(),
            self.num < old(state).soldier_parts.pos@.len(),
            in_box(old(state).soldier_parts.velocity@[self.num as int], 2_000_000_000),
            in_box(old(state).soldier_parts.forces@[self.num as int], 2_100_000_000),
        ensures
            final(state).map == old(state).map,
            final(state).soldier_parts.wf(),
            final(state).soldier_parts.pos@.len() == old(state).soldier_parts.pos@.len(),
            final(state).soldier_parts.pos@ == old(state).soldier_parts.pos@,
            final(state).soldier_parts.old_pos@ == old(state).soldier_parts.old_pos@,
            forall|j: int|
                0 <= j < old(state).soldier_parts.pos@.len() && j != self.num
                    ==> #[trigger] final(state).soldier_parts.velocity@[j] == old(state).soldier_parts.velocity@[j],
            forall|j: int|
                0 <= j < old(state).soldier_parts.pos@.len() && j != self.num
                    ==> #[trigger] final(state).soldier_parts.forces@[j] == old(state).soldier_parts.forces@[j],
            slot_view(final(state).soldier_parts, self.num as int) == stand_damp(
                slot_view(old(state).soldier_parts, self.num as int),
            ),
    {
        let num: usize = self.num;
        let v: Vec2 = state.soldier_parts.velocity[num];
        proof {
            reveal(crate::soldier::stand_damp);
            crate::fx::lemma_fmul_bound(v.x as int, STANDSURFACECOEFX as int, iabs(v.x as int),
                FX_ONE as int);
            crate::fx::lemma_fmul_bound(v.y as int, STANDSURFACECOEFY as int, iabs(v.y as int),
                FX_ONE as int);
        }
        let nvx: i64 = fmul(v.x, STANDSURFACECOEFX);
        let nvy: i64 = fmul(v.y, STANDSURFACECOEFY);
        state.soldier_parts.velocity[num] = vec2(nvx, nvy);
        let f: Vec2 = state.soldier_parts.forces[num];
        state.soldier_parts.forces[num] = vec2(f.x - nvx, f.y);
    }

    /// Scale the velocity by the default surface friction.
    fn surface_damp_slot(&self, state: &mut MainState)
        requires
            old(state).soldier_parts.wf(),
            self.num < old(state).soldier_parts.pos@.len(),
            in_box(old(state).soldier_parts.velocity@[self.num as int], 2_000_000_000),
        ensures
            final(state).map == old(state).map,
            final(state).soldier_parts.wf(),
            final(state).soldier_parts.pos@.len() == old(state).soldier_parts.pos@.len(),
            final(state).soldier_parts.pos@ == old(state).soldier_parts.pos@,
            final(state).soldier_parts.old_pos@ == old(state).soldier_parts.old_pos@,
            final(state).soldier_parts.forces@ == old(state).soldier_parts.forces@,
            forall|j: int|
                0 <= j < old(state).soldier_parts.pos@.len() && j != self.num
                    ==> #[trigger] final(state).soldier_parts.velocity@[j] == old(state).soldier_parts.velocity@[j],
            slot_view(final(state).soldier_parts, self.num as int) == surface_damp(
                slot_view(old(state).soldier_parts, self.num as int),
            ),
    {
        let num: usize = self.num;
        let v: Vec2 = state.soldier_parts.velocity[num];
        proof {
            reveal(crate::soldier::surface_damp);
            crate::fx::lemma_fmul_bound(v.x as int, SURFACECOEFX as int, iabs(v.x as int),
                FX_ONE as int);
            crate::fx::lemma_fmul_bound(v.y as int, SURFACECOEFY as int, iabs(v.y as int),
                FX_ONE as int);
        }
        state.soldier_parts.velocity[num] = vec2(fmul(v.x, SURFACECOEFX), fmul(v.y, SURFACECOEFY));
    }
}

/// Number of unit-length march steps of the body-circle probe: the speed
/// rounded up to whole world units, at least one.
pub open spec fn radius_det(vel: Vec2) -> int {
    let d = crate::fx::tdiv_spec(len_i(vel.x as int, vel.y as int) + FX_ONE - 1, FX_ONE as int);
    if d == 0 {
        1
    } else {
        d
    }
}

/// The march position after `z + 1` steps of `velocity / det` from
/// `(x, y - 3)`.
pub open spec fn radius_spos_x(x: int, vel: Vec2, z: int) -> int {
    x + (z + 1) * crate::fx::tdiv_spec(vel.x as int, radius_det(vel))
}

pub open spec fn radius_spos_y(y: int, vel: Vec2, z: int) -> int {
    y - 3 * FX_ONE + (z + 1) * crate::fx::tdiv_spec(vel.y as int, radius_det(vel))
}

/// At march step `z`, the probe point displaced from the march position by
/// cached perpendicular `k` (1 or 2) of candidate `j`'s polygon, scaled by
/// the collider radius, lies edge-inclusively inside that colliding polygon.
#[verifier::opaque]
pub open spec fn radius_cand_hit(
    m: MapIndex,
    x: int,
    y: int,
    vel: Vec2,
    z: int,
    j: int,
    k: int,
) -> bool {
    let sx = radius_spos_x(x, vel, z);
    let sy = radius_spos_y(y, vel, z);
    let rx = m.sector_coord_spec(sx);
    let ry = m.sector_coord_spec(sy);
    let cs = cands(m, rx, ry);
    &&& 0 <= z < radius_det(vel)
    &&& sector_ok(m, rx, ry)
    &&& 0 <= j < cs.len()
    &&& 1 <= k <= 2
    &&& collidable(m.polygons@[cs[j] - 1].polytype)
    &&& {
        let p = m.polygons@[cs[j] - 1];
        let perp = if k == 1 {
            p.perp1
        } else {
            p.perp2
        };
        crate::mapfile::pip_edges(
            p,
            sx + fmul_spec(perp.x as int, -SOLDIER_COL_RADIUS as int),
            sy + fmul_spec(perp.y as int, -SOLDIER_COL_RADIUS as int),
        )
    }
}

/// Whether the body-circle march from `(x, y)` under `vel` penetrates the
/// map anywhere.
#[verifier::opaque]
pub open spec fn radius_any_hit(m: MapIndex, x: int, y: int, vel: Vec2) -> bool {
    exists|z: int, j: int, k: int| #[trigger] radius_cand_hit(m, x, y, vel, z, j, k)
}

/// The velocity override of the hit at `(z, j, k)`: the accumulated force
/// minus that probe point's nearest-edge normal scaled by the penetration
/// distance.
#[verifier::opaque]
pub open spec fn radius_resp_at(
    m: MapIndex,
    x: int,
    y: int,
    vel: Vec2,
    z: int,
    j: int,
    k: int,
    f: Vec2,
    nvx: int,
    nvy: int,
) -> bool {
    let sx = radius_spos_x(x, vel, z);
    let sy = radius_spos_y(y, vel, z);
    let cs = cands(m, m.sector_coord_spec(sx), m.sector_coord_spec(sy));
    let p = m.polygons@[cs[j] - 1];
    let perp0 = if k == 1 {
        p.perp1
    } else {
        p.perp2
    };
    let ppx = sx + fmul_spec(perp0.x as int, -SOLDIER_COL_RADIUS as int);
    let ppy = sy + fmul_spec(perp0.y as int, -SOLDIER_COL_RADIUS as int);
    let sel = crate::mapfile::cp_sel(p, ppx, ppy);
    let d = crate::mapfile::cp_dist(p, ppx, ppy);
    let perp = crate::mapfile::perp_of(p, sel);
    &&& radius_cand_hit(m, x, y, vel, z, j, k)
    &&& nvx == f.x - fmul_spec(perp.x as int, d)
    &&& nvy == f.y - fmul_spec(perp.y as int, d)
}

/// Some colliding candidate polygon of `(px, py)`'s sector cell holds the
/// point edge-inclusively: one ragdoll probe's hit condition.
#[verifier::opaque]
pub open spec fn skel_cand_hit(m: MapIndex, px: int, py: int, j: int) -> bool {
    let rx = m.sector_coord_spec(px);
    let ry = m.sector_coord_spec(py);
    let cs = cands(m, rx, ry);
    &&& 0 <= j < cs.len()
    &&& collidable(m.polygons@[cs[j] - 1].polytype)
    &&& crate::mapfile::pip_edges(m.polygons@[cs[j] - 1], px, py)
}

/// Whether a ragdoll probe at `(px, py)` hits anything.
#[verifier::opaque]
pub open spec fn skel_any_hit(m: MapIndex, px: int, py: int) -> bool {
    &&& sector_ok(m, m.sector_coord_spec(px), m.sector_coord_spec(py))
    &&& exists|j: int| #[trigger] skel_cand_hit(m, px, py, j)
}

/// `pid` is a candidate of `(px, py)`'s sector cell whose colliding polygon
/// holds the probe point edge-inclusively, and `(nx, ny)` is the joint's
/// previous position pushed back along the nearest edge's unit normal by the
/// penetration distance.
#[verifier::opaque]
pub open spec fn skeleton_hit_resp(
    m: MapIndex,
    px: int,
    py: int,
    pid: int,
    op: Vec2,
    nx: int,
    ny: int,
) -> bool {
    let rx = m.sector_coord_spec(px);
    let ry = m.sector_coord_spec(py);
    let poly = m.polygons@[pid - 1];
    let sel = crate::mapfile::cp_sel(poly, px, py);
    let d = crate::mapfile::cp_dist(poly, px, py);
    let perp = crate::mapfile::perp_of(poly, sel);
    &&& sector_ok(m, rx, ry)
    &&& exists|j: int| 0 <= j < cands(m, rx, ry).len() && #[trigger] cands(m, rx, ry)[j] == pid
    &&& 1 <= pid <= m.polygons@.len()
    &&& collidable(poly.polytype)
    &&& crate::mapfile::pip_edges(poly, px, py)
    &&& nx == op.x - fmul_spec(norm_xi(perp.x as int, perp.y as int), d)
    &&& ny == op.y - fmul_spec(norm_yi(perp.x as int, perp.y as int), d)
}


/// What one corner probe promises: the hit flag reports whether any
/// colliding candidate polygon has a vertex within `r` of the prospective
/// position; a miss changes nothing; a hit snaps the position one unit away
/// from the first such vertex, after any lethal-material teleport.
#[verifier::opaque]
pub open spec fn vert_post(
    s: Soldier,
    pre: MainState,
    post: MainState,
    x: int,
    y: int,
    r: int,
    has_collided: bool,
    hit: bool,
) -> bool {
    let m = pre.map;
    let num = s.num as int;
    let vel = pre.soldier_parts.velocity@[num];
    let px = x + vel.x;
    let py = y + vel.y;
    let rx = m.sector_coord_spec(px);
    let ry = m.sector_coord_spec(py);
    let fh = first_vert_hit(m, cands(m, rx, ry), 0, px, py, r);
    let found = sector_ok(m, rx, ry) && fh is Some;
    &&& hit == found
    &&& !found ==> post == pre
    &&& (found ==> ({
        let pair = fh->0;
        let poly = m.polygons@[cands(m, rx, ry)[pair.0] - 1];
        let v = vert_of(poly, pair.1);
        let bx = if lethal(poly.polytype) && !has_collided {
            m.spawnpoints@[0].x as int
        } else {
            pre.soldier_parts.pos@[num].x as int
        };
        let by = if lethal(poly.polytype) && !has_collided {
            m.spawnpoints@[0].y as int
        } else {
            pre.soldier_parts.pos@[num].y as int
        };
        &&& post.soldier_parts.pos@[num].x == bx + norm_xi(px - v.x, py - v.y)
        &&& post.soldier_parts.pos@[num].y == by + norm_yi(px - v.x, py - v.y)
    }))
}


/// What one body-circle probe promises: the hit flag reports whether any
/// march step's radius-displaced probe point penetrates a colliding
/// candidate polygon; a miss changes nothing; a hit rewinds the position to
/// the previous tick's and overrides the velocity with the force minus a
/// penetrated probe point's scaled edge normal.
#[verifier::opaque]
pub open spec fn radius_post(
    s: Soldier,
    pre: MainState,
    post: MainState,
    x: int,
    y: int,
    hit: bool,
) -> bool {
    let num = s.num as int;
    let vel = pre.soldier_parts.velocity@[num];
    &&& hit == radius_any_hit(pre.map, x, y, vel)
    &&& !hit ==> post == pre
    &&& hit ==> post.soldier_parts.pos@[num] == pre.soldier_parts.old_pos@[num]
    &&& hit ==> exists|z: int, j: int, k: int|
        #[trigger] radius_resp_at(
            pre.map,
            x,
            y,
            vel,
            z,
            j,
            k,
            pre.soldier_parts.forces@[num],
            post.soldier_parts.velocity@[num].x as int,
            post.soldier_parts.velocity@[num].y as int,
        )
}

impl Soldier {
    /// Probe the candidate polygons' corners with the prospective position;
    /// on the first corner within `r`, snap the soldier one unit straight
    /// away from it.
    pub fn check_map_vertices_collision(
        &mut self,
        state: &mut MainState,
        x: i64,
        y: i64,
        r: i64,
        has_collided: bool,
    ) -> (hit: bool)
        requires
            old(self).wf(),
            old(state).wf(),
            old(self).num < old(state).soldier_parts.pos@.len(),
            iabs(x as int) <= 160_000_000,
            iabs(y as int) <= 160_000_000,
            0 < r <= 1_000_000,
            in_box(old(state).soldier_parts.pos@[old(self).num as int], 200_000_000),
            in_box(old(state).soldier_parts.velocity@[old(self).num as int], 1_800_000_000),
        ensures
            *final(self) == *old(self),
            final(state).map == old(state).map,
            final(state).soldier_parts.wf(),
            final(state).soldier_parts.pos@.len() == old(state).soldier_parts.pos@.len(),
            final(state).soldier_parts.old_pos@ == old(state).soldier_parts.old_pos@,
            final(state).soldier_parts.velocity@ == old(state).soldier_parts.velocity@,
            final(state).soldier_parts.forces@ == old(state).soldier_parts.forces@,
            final(state).soldier_parts.pos@ == old(state).soldier_parts.pos@.update(old(self).num as int, final(state).soldier_parts.pos@[old(self).num as int]),
            in_box(final(state).soldier_parts.pos@[old(self).num as int], 200_010_000),
            vert_post(*old(self), *old(state), *final(state), x as int, y as int, r as int, has_collided, hit),
    {
        proof {
            reveal(crate::soldier::vert_post);
        }
        let num: usize = self.num;
        let vel: Vec2 = state.soldier_parts.velocity[num];
        let pos: Vec2 = vec2(x + vel.x, y + vel.y);
        let rx: i64 = state.map.sector_coord(pos.x);
        let ry: i64 = state.map.sector_coord(pos.y);
        if rx > 0 && rx < state.map.sectors_num + 25 && ry > 0 && ry < state.map.sectors_num + 25 {
            let rxu: usize = rx as usize;
            let ryu: usize = ry as usize;
            let n: usize = state.map.sectors_poly[rxu][ryu].len();
            let ghost cs = cands(state.map, rx as int, ry as int);
            let mut j: usize = 0;
            while j < n
                invariant
                    old(self).wf(),
                    old(state).wf(),
                    *self == *old(self),
                    *state == *old(state),
                    num == old(self).num < old(state).soldier_parts.pos@.len(),
                    vel == old(state).soldier_parts.velocity@[num as int],
                    pos.x == x + vel.x,
                    pos.y == y + vel.y,
                    0 < r <= 1_000_000,
                    in_box(pos, 2_000_000_000),
                    in_box(old(state).soldier_parts.pos@[num as int], 200_000_000),
                    rx as int == old(state).map.sector_coord_spec(pos.x as int),
                    ry as int == old(state).map.sector_coord_spec(pos.y as int),
                    sector_ok(old(state).map, rx as int, ry as int),
                    0 <= rxu == rx,
                    0 <= ryu == ry,
                    cs == cands(old(state).map, rx as int, ry as int),
                    n == cs.len(),
                    j <= n,
                    first_vert_hit(old(state).map, cs, 0, pos.x as int, pos.y as int, r as int)
                        == first_vert_hit(
                        old(state).map,
                        cs,
                        j as int,
                        pos.x as int,
                        pos.y as int,
                        r as int,
                    ),
                decreases n - j,
            {
                let polyid: usize = state.map.sectors_poly[rxu][ryu][j];
                let poly: Polygon = state.map.polygons[polyid - 1];
                let polytype: PolyType = poly.polytype;
                if polytype != PolyType::NoCollide && polytype != PolyType::OnlyBulletsCollide {
                    let d1: i64 = poly.v1.dist_to(pos);
                    let d2: i64 = poly.v2.dist_to(pos);
                    let d3: i64 = poly.v3.dist_to(pos);
                    if d1 < r || d2 < r || d3 < r {
                        let v: Vec2 = if d1 < r {
                            poly.v1
                        } else if d2 < r {
                            poly.v2
                        } else {
                            poly.v3
                        };
                        proof {
                            reveal(crate::soldier::vert_post);
                            assert(first_vert_hit(old(state).map, cs, j as int, pos.x as int,
                                pos.y as int, r as int) is Some);
                        }
                        if !has_collided {
                            self.handle_special_polytypes(state, polytype, pos);
                        }
                        proof {
                            assert(in_box(old(state).map.spawnpoints@[0], 100_000_000));
                        }
                        let dir: Vec2 = pos.minus(v).normalized();
                        let cur: Vec2 = state.soldier_parts.pos[num];
                        state.soldier_parts.pos[num] = vec2(cur.x + dir.x, cur.y + dir.y);
                        proof {
                            assert(state.soldier_parts.pos@ =~= old(state).soldier_parts.pos@.update(num as int, state.soldier_parts.pos@[num as int]));
                        }
                        return true;
                    }
                }
                j += 1;
            }
        }
        false
    }

    /// Approximate the soldier as a circle and march it along the velocity in
    /// unit steps; on the first penetration, rewind the position to the
    /// previous tick's and override the velocity with the accumulated force
    /// minus the scaled edge normal.
    #[verifier::rlimit(80)]
    pub fn check_radius_map_collision(
        &mut self,
        state: &mut MainState,
        x: i64,
        y: i64,
        has_collided: bool,
    ) -> (hit: bool)
        requires
            old(self).wf(),
            old(state).wf(),
            old(self).num < old(state).soldier_parts.pos@.len(),
            iabs(x as int) <= 160_000_000,
            iabs(y as int) <= 160_000_000,
            in_box(old(state).soldier_parts.pos@[old(self).num as int], 200_000_000),
            in_box(old(state).soldier_parts.old_pos@[old(self).num as int], 200_000_000),
            in_box(old(state).soldier_parts.velocity@[old(self).num as int], 100_000_000),
            in_box(old(state).soldier_parts.forces@[old(self).num as int], 100_000_000),
        ensures
            *final(self) == *old(self),
            final(state).map == old(state).map,
            final(state).soldier_parts.wf(),
            final(state).soldier_parts.pos@.len() == old(state).soldier_parts.pos@.len(),
            final(state).soldier_parts.old_pos@ == old(state).soldier_parts.old_pos@,
            final(state).soldier_parts.forces@ == old(state).soldier_parts.forces@,
            final(state).soldier_parts.pos@ == old(state).soldier_parts.pos@.update(old(self).num as int, final(state).soldier_parts.pos@[old(self).num as int]),
            final(state).soldier_parts.velocity@ == old(state).soldier_parts.velocity@.update(old(self).num as int, final(state).soldier_parts.velocity@[old(self).num as int]),
            radius_post(*old(self), *old(state), *final(state), x as int, y as int, hit),
            in_box(final(state).soldier_parts.pos@[old(self).num as int], 200_000_000),
            in_box(final(state).soldier_parts.velocity@[old(self).num as int], 1_800_000_000),
    {
        proof {
            reveal(crate::soldier::radius_post);
            reveal(crate::soldier::radius_cand_hit);
            reveal(crate::soldier::radius_any_hit);
            reveal(crate::soldier::radius_resp_at);
        }
        let num: usize = self.num;
        let vel: Vec2 = state.soldier_parts.velocity[num];
        let mut s_pos: Vec2 = vec2(x, y - 3 * FX_ONE);
        let speed: i64 = vel.length();
        let mut det_acc: i64 = crate::fx::tdiv(speed + FX_ONE - 1, FX_ONE);
        if det_acc == 0 {
            det_acc = 1;
        }
        proof {
            assert(det_acc as int == radius_det(vel));
        }
        let step: Vec2 = vec2(crate::fx::tdiv(vel.x, det_acc), crate::fx::tdiv(vel.y, det_acc));
        let mut z: i64 = 0;
        while z < det_acc
            invariant
                old(self).wf(),
                old(state).wf(),
                *self == *old(self),
                *state == *old(state),
                num == old(self).num < old(state).soldier_parts.pos@.len(),
                vel == old(state).soldier_parts.velocity@[num as int],
                iabs(x as int) <= 160_000_000,
                iabs(y as int) <= 160_000_000,
                in_box(vel, 100_000_000),
                in_box(old(state).soldier_parts.pos@[num as int], 200_000_000),
                in_box(old(state).soldier_parts.old_pos@[num as int], 200_000_000),
                in_box(old(state).soldier_parts.forces@[num as int], 100_000_000),
                1 <= det_acc <= 300_000_000,
                det_acc as int == radius_det(vel),
                step.x == crate::fx::tdiv_spec(vel.x as int, det_acc as int),
                step.y == crate::fx::tdiv_spec(vel.y as int, det_acc as int),
                iabs(step.x as int) <= iabs(vel.x as int),
                iabs(step.y as int) <= iabs(vel.y as int),
                0 <= z <= det_acc,
                s_pos.x as int == x + z * (step.x as int),
                s_pos.y as int == y - 3 * FX_ONE + z * (step.y as int),
                iabs(s_pos.x as int) <= 160_000_000 + z * iabs(step.x as int),
                iabs(s_pos.y as int) <= 160_000_000 + 30_000 + z * iabs(step.y as int),
                z * iabs(step.x as int) <= iabs(vel.x as int),
                z * iabs(step.y as int) <= iabs(vel.y as int),
                forall|z2: int, j2: int, k2: int|
                    z2 < z ==> !#[trigger] radius_cand_hit(
                        old(state).map,
                        x as int,
                        y as int,
                        vel,
                        z2,
                        j2,
                        k2,
                    ),
            decreases det_acc - z,
        {
            proof {
                reveal(crate::soldier::radius_cand_hit);
                reveal(crate::soldier::radius_any_hit);
                reveal(crate::soldier::radius_resp_at);
                assert((z + 1) * iabs(step.x as int) == z * iabs(step.x as int) + iabs(
                    step.x as int,
                ) && (z + 1) * iabs(step.y as int) == z * iabs(step.y as int) + iabs(
                    step.y as int,
                ) && (z + 1) * (step.x as int) == z * (step.x as int) + step.x && (z + 1) * (
                step.y as int) == z * (step.y as int) + step.y) by (nonlinear_arith);
                lemma_march_bound(vel.x as int, det_acc as int, z + 1);
                lemma_march_bound(vel.y as int, det_acc as int, z + 1);
            }
            s_pos = vec2(s_pos.x + step.x, s_pos.y + step.y);
            proof {
                assert(s_pos.x as int == radius_spos_x(x as int, vel, z as int));
                assert(s_pos.y as int == radius_spos_y(y as int, vel, z as int));
            }
            let rx: i64 = state.map.sector_coord(s_pos.x);
            let ry: i64 = state.map.sector_coord(s_pos.y);
            if rx > 0 && rx < state.map.sectors_num + 25 && ry > 0 && ry < state.map.sectors_num
                + 25 {
                let rxu: usize = rx as usize;
                let ryu: usize = ry as usize;
                let n: usize = state.map.sectors_poly[rxu][ryu].len();
                let mut j: usize = 0;
                while j < n
                    invariant
                        old(self).wf(),
                        old(state).wf(),
                        *self == *old(self),
                        *state == *old(state),
                        num == old(self).num < old(state).soldier_parts.pos@.len(),
                        iabs(x as int) <= 160_000_000,
                        iabs(y as int) <= 160_000_000,
                        vel == old(state).soldier_parts.velocity@[num as int],
                        in_box(old(state).soldier_parts.old_pos@[num as int], 200_000_000),
                        in_box(old(state).soldier_parts.forces@[num as int], 100_000_000),
                        in_box(s_pos, 300_000_000),
                        0 <= z < det_acc,
                        det_acc as int == radius_det(vel),
                        s_pos.x as int == radius_spos_x(x as int, vel, z as int),
                        s_pos.y as int == radius_spos_y(y as int, vel, z as int),
                        sector_ok(old(state).map, rx as int, ry as int),
                        rx as int == old(state).map.sector_coord_spec(s_pos.x as int),
                        ry as int == old(state).map.sector_coord_spec(s_pos.y as int),
                        0 <= rxu == rx,
                        0 <= ryu == ry,
                        n == cands(old(state).map, rx as int, ry as int).len(),
                        j <= n,
                        forall|j2: int, k2: int|
                            0 <= j2 < j ==> !#[trigger] radius_cand_hit(
                                old(state).map,
                                x as int,
                                y as int,
                                vel,
                                z as int,
                                j2,
                                k2,
                            ),
                    decreases n - j,
                {
                    proof {
                        reveal(crate::soldier::radius_cand_hit);
                    }
                    let polyid: usize = state.map.sectors_poly[rxu][ryu][j];
                    let poly: Polygon = state.map.polygons[polyid - 1];
                    let polytype: PolyType = poly.polytype;
                    if polytype != PolyType::NoCollide && polytype != PolyType::OnlyBulletsCollide {
                        let mut k: usize = 0;
                        while k < 2
                            invariant
                                old(self).wf(),
                                old(state).wf(),
                                *self == *old(self),
                                *state == *old(state),
                                num == old(self).num < old(state).soldier_parts.pos@.len(),
                                iabs(x as int) <= 160_000_000,
                                iabs(y as int) <= 160_000_000,
                                vel == old(state).soldier_parts.velocity@[num as int],
                                in_box(old(state).soldier_parts.old_pos@[num as int], 200_000_000),
                                in_box(old(state).soldier_parts.forces@[num as int], 100_000_000),
                                in_box(s_pos, 300_000_000),
                                0 <= z < det_acc,
                                det_acc as int == radius_det(vel),
                                s_pos.x as int == radius_spos_x(x as int, vel, z as int),
                                s_pos.y as int == radius_spos_y(y as int, vel, z as int),
                                sector_ok(old(state).map, rx as int, ry as int),
                                rx as int == old(state).map.sector_coord_spec(s_pos.x as int),
                                ry as int == old(state).map.sector_coord_spec(s_pos.y as int),
                                0 <= rxu == rx,
                                0 <= ryu == ry,
                                j < cands(old(state).map, rx as int, ry as int).len(),
                                1 <= polyid <= old(state).map.polygons@.len(),
                                polyid == cands(old(state).map, rx as int, ry as int)[j as int],
                                poly == old(state).map.polygons@[polyid - 1],
                                polytype == poly.polytype,
                                collidable(polytype),
                                k <= 2,
                                forall|k2: int|
                                    1 <= k2 <= k ==> !#[trigger] radius_cand_hit(
                                        old(state).map,
                                        x as int,
                                        y as int,
                                        vel,
                                        z as int,
                                        j as int,
                                        k2,
                                    ),
                            decreases 2 - k,
                        {
                            proof {
                                reveal(crate::soldier::radius_cand_hit);
                                reveal(crate::soldier::radius_any_hit);
                                reveal(crate::soldier::radius_resp_at);
                            }
                            let perpk: Vec2 = if k == 0 {
                                poly.perp1
                            } else {
                                poly.perp2
                            };
                            proof {
                                crate::fx::lemma_unit_scale_bound(perpk.x as int,
                                    -SOLDIER_COL_RADIUS as int, SOLDIER_COL_RADIUS as int);
                                crate::fx::lemma_unit_scale_bound(perpk.y as int,
                                    -SOLDIER_COL_RADIUS as int, SOLDIER_COL_RADIUS as int);
                            }
                            let norm: Vec2 = perpk.scaled(-SOLDIER_COL_RADIUS);
                            let pos2: Vec2 = vec2(s_pos.x + norm.x, s_pos.y + norm.y);
                            if state.map.point_in_poly_edges(pos2.x, pos2.y, polyid - 1) {
                                proof {
                                    assert(pos2.x as int == radius_spos_x(x as int, vel, z as int)
                                        + fmul_spec(perpk.x as int, -SOLDIER_COL_RADIUS as int));
                                    assert(pos2.y as int == radius_spos_y(y as int, vel, z as int)
                                        + fmul_spec(perpk.y as int, -SOLDIER_COL_RADIUS as int));
                                    assert(radius_cand_hit(old(state).map, x as int, y as int,
                                        vel, z as int, j as int, k as int + 1));
                                }
                                if !has_collided {
                                    self.handle_special_polytypes(state, polytype, pos2);
                                }
                                let q: (Vec2, i64, i32) = state.map.closest_perpendicular(
                                    polyid - 1,
                                    pos2,
                                );
                                let d: i64 = q.1;
                                proof {
                                    crate::fx::lemma_unit_scale_bound(q.0.x as int, d as int,
                                        1_610_000_000);
                                    crate::fx::lemma_unit_scale_bound(q.0.y as int, d as int,
                                        1_610_000_000);
                                }
                                let perp: Vec2 = q.0.scaled(d);
                                let op: Vec2 = state.soldier_parts.old_pos[num];
                                state.soldier_parts.pos[num] = op;
                                let f: Vec2 = state.soldier_parts.forces[num];
                                let nv: Vec2 = vec2(f.x - perp.x, f.y - perp.y);
                                state.soldier_parts.velocity[num] = nv;
                                proof {
                                    reveal(crate::soldier::radius_post);
                                    assert(state.soldier_parts.velocity@[num as int] == nv);
                                    assert(radius_resp_at(old(state).map, x as int, y as int, vel,
                                        z as int, j as int, k as int + 1,
                                        old(state).soldier_parts.forces@[num as int],
                                        state.soldier_parts.velocity@[num as int].x as int,
                                        state.soldier_parts.velocity@[num as int].y as int));
                                    assert(radius_any_hit(old(state).map, x as int, y as int, vel));
                                    assert(state.soldier_parts.pos@
                                        =~= old(state).soldier_parts.pos@.update(num as int,
                                        state.soldier_parts.pos@[num as int]));
                                    assert(state.soldier_parts.velocity@
                                        =~= old(state).soldier_parts.velocity@.update(num as int,
                                        state.soldier_parts.velocity@[num as int]));
                                }
                                return true;
                            } else {
                                proof {
                                    assert(pos2.x as int == radius_spos_x(x as int, vel, z as int)
                                        + fmul_spec(perpk.x as int, -SOLDIER_COL_RADIUS as int));
                                    assert(pos2.y as int == radius_spos_y(y as int, vel, z as int)
                                        + fmul_spec(perpk.y as int, -SOLDIER_COL_RADIUS as int));
                                    assert(!radius_cand_hit(old(state).map, x as int, y as int,
                                        vel, z as int, j as int, k as int + 1));
                                }
                            }
                            k += 1;
                        }
                        proof {
                            reveal(crate::soldier::radius_cand_hit);
                            assert forall|k2: int| !#[trigger] radius_cand_hit(
                                old(state).map,
                                x as int,
                                y as int,
                                vel,
                                z as int,
                                j as int,
                                k2,
                            ) by {
                                if k2 == 1 || k2 == 2 {
                                } else {
                                    assert(!(1 <= k2 <= 2));
                                }
                            }
                        }
                    } else {
                        proof {
                            reveal(crate::soldier::radius_cand_hit);
                            assert forall|k2: int| !#[trigger] radius_cand_hit(
                                old(state).map,
                                x as int,
                                y as int,
                                vel,
                                z as int,
                                j as int,
                                k2,
                            ) by {
                                assert(!collidable(polytype));
                            }
                        }
                    }
                    j += 1;
                }
                proof {
                    reveal(crate::soldier::radius_cand_hit);
                    assert forall|j2: int, k2: int| !#[trigger] radius_cand_hit(
                        old(state).map,
                        x as int,
                        y as int,
                        vel,
                        z as int,
                        j2,
                        k2,
                    ) by {
                        if 0 <= j2 < n {
                        } else {
                            assert(!(0 <= j2 < cands(old(state).map, rx as int, ry as int).len()));
                        }
                    }
                }
            } else {
                proof {
                    reveal(crate::soldier::radius_cand_hit);
                    assert forall|j2: int, k2: int| !#[trigger] radius_cand_hit(
                        old(state).map,
                        x as int,
                        y as int,
                        vel,
                        z as int,
                        j2,
                        k2,
                    ) by {
                        assert(!sector_ok(old(state).map, rx as int, ry as int));
                    }
                }
            }
            z += 1;
        }
        proof {
            reveal(crate::soldier::radius_cand_hit);
            reveal(crate::soldier::radius_any_hit);
            assert forall|z2: int, j2: int, k2: int| !#[trigger] radius_cand_hit(
                old(state).map,
                x as int,
                y as int,
                vel,
                z2,
                j2,
                k2,
            ) by {
                if 0 <= z2 < det_acc {
                    assert(z2 < z);
                } else {
                    assert(!(0 <= z2 < radius_det(vel)));
                }
            }
            assert(!radius_any_hit(old(state).map, x as int, y as int, vel));
        }
        false
    }

    /// Probe the map at a ragdoll joint's position; every penetrated
    /// colliding polygon pushes the joint back out from its previous
    /// position along the nearest edge's normal, and a second, lower probe
    /// follows a hit.
    pub fn check_skeleton_map_collision(&mut self, state: &mut MainState, i: usize, x: i64, y: i64)
        -> (hit: bool)
        requires
            old(self).wf(),
            old(state).wf(),
            i < old(self).skeleton.pos@.len(),
            iabs(x as int) <= 160_000_000,
            iabs(y as int) <= 160_000_000,
            in_box(old(self).skeleton.old_pos@[i as int], 200_000_000),
        ensures
            *final(state) == *old(state),
            *final(self) == (Soldier { skeleton: final(self).skeleton, ..*old(self) }),
            final(self).skeleton.pos@.len() == old(self).skeleton.pos@.len(),
            final(self).skeleton.old_pos@ == old(self).skeleton.old_pos@,
            final(self).skeleton.active@ == old(self).skeleton.active@,
            final(self).skeleton.gravity == old(self).skeleton.gravity,
            final(self).skeleton.v_damping == old(self).skeleton.v_damping,
            final(self).wf(),
            forall|j: int|
                0 <= j < old(self).skeleton.pos@.len() && j != i ==> #[trigger] final(self).skeleton.pos@[j] == old(self).skeleton.pos@[j],
            hit == skel_any_hit(old(state).map, x - FX_ONE, y + 4 * FX_ONE),
            !hit ==> *final(self) == *old(self),
            hit && skel_any_hit(old(state).map, x as int, y + FX_ONE) ==> exists|pid: int|
                #[trigger] skeleton_hit_resp(
                    old(state).map,
                    x as int,
                    y + FX_ONE,
                    pid,
                    old(self).skeleton.old_pos@[i as int],
                    final(self).skeleton.pos@[i as int].x as int,
                    final(self).skeleton.pos@[i as int].y as int,
                ),
            hit && !skel_any_hit(old(state).map, x as int, y + FX_ONE) ==> exists|pid: int|
                #[trigger] skeleton_hit_resp(
                    old(state).map,
                    x - FX_ONE,
                    y + 4 * FX_ONE,
                    pid,
                    old(self).skeleton.old_pos@[i as int],
                    final(self).skeleton.pos@[i as int].x as int,
                    final(self).skeleton.pos@[i as int].y as int,
                ),
            in_box(final(self).skeleton.pos@[i as int], 1_400_000_300) || final(self).skeleton.pos@[i as int] == old(self).skeleton.pos@[i as int],
    {
        let mut result: bool = self.skeleton_probe(state, i, x - FX_ONE, y + 4 * FX_ONE, false);
        if result {
            result = self.skeleton_probe(state, i, x, y + FX_ONE, true);
        }
        result
    }

    /// One pass of the ragdoll probe at `(px, py)`: every penetrated
    /// colliding candidate polygon rewrites the joint from its previous
    /// position. Returns whether this pass (or an earlier one, via `carry`)
    /// hit.
    #[verifier::rlimit(100)]
    fn skeleton_probe(&mut self, state: &MainState, i: usize, px: i64, py: i64, carry: bool) -> (hit:
        bool)
        requires
            old(self).wf(),
            state.wf(),
            i < old(self).skeleton.pos@.len(),
            iabs(px as int) <= 200_000_000,
            iabs(py as int) <= 200_000_000,
            in_box(old(self).skeleton.old_pos@[i as int], 200_000_000),
        ensures
            *final(self) == (Soldier { skeleton: final(self).skeleton, ..*old(self) }),
            final(self).skeleton.pos@.len() == old(self).skeleton.pos@.len(),
            final(self).skeleton.old_pos@ == old(self).skeleton.old_pos@,
            final(self).skeleton.active@ == old(self).skeleton.active@,
            final(self).skeleton.gravity == old(self).skeleton.gravity,
            final(self).skeleton.v_damping == old(self).skeleton.v_damping,
            final(self).wf(),
            forall|j: int|
                0 <= j < old(self).skeleton.pos@.len() && j != i ==> #[trigger] final(self).skeleton.pos@[j] == old(self).skeleton.pos@[j],
            hit == (carry || skel_any_hit(state.map, px as int, py as int)),
            !skel_any_hit(state.map, px as int, py as int) ==> *final(self) == *old(self),
            skel_any_hit(state.map, px as int, py as int) ==> (exists|pid: int|
                #[trigger] skeleton_hit_resp(
                    state.map,
                    px as int,
                    py as int,
                    pid,
                    old(self).skeleton.old_pos@[i as int],
                    final(self).skeleton.pos@[i as int].x as int,
                    final(self).skeleton.pos@[i as int].y as int,
                )),
            skel_any_hit(state.map, px as int, py as int) ==> in_box(
                final(self).skeleton.pos@[i as int],
                1_400_000_300,
            ),
    {
        proof {
            reveal(crate::soldier::skel_cand_hit);
            reveal(crate::soldier::skel_any_hit);
        }
        let mut result: bool = carry;
        let rx: i64 = state.map.sector_coord(px);
        let ry: i64 = state.map.sector_coord(py);
        if rx > 0 && rx < state.map.sectors_num + 25 && ry > 0 && ry < state.map.sectors_num + 25 {
            let rxu: usize = rx as usize;
            let ryu: usize = ry as usize;
            let n: usize = state.map.sectors_poly[rxu][ryu].len();
            let ghost found = false;
            let mut j: usize = 0;
            while j < n
                invariant
                    old(self).wf(),
                    state.wf(),
                    i < old(self).skeleton.pos@.len(),
                    iabs(px as int) <= 200_000_000,
                    iabs(py as int) <= 200_000_000,
                    in_box(old(self).skeleton.old_pos@[i as int], 200_000_000),
                    *self == (Soldier { skeleton: self.skeleton, ..*old(self) }),
                    self.skeleton.pos@.len() == old(self).skeleton.pos@.len(),
                    self.skeleton.old_pos@ == old(self).skeleton.old_pos@,
                    self.skeleton.active@ == old(self).skeleton.active@,
                    self.skeleton.gravity == old(self).skeleton.gravity,
                    self.skeleton.v_damping == old(self).skeleton.v_damping,
                    self.wf(),
                    forall|jj: int|
                        0 <= jj < old(self).skeleton.pos@.len() && jj != i ==> #[trigger] self.skeleton.pos@[jj] == old(self).skeleton.pos@[jj],
                    sector_ok(state.map, rx as int, ry as int),
                    rx as int == state.map.sector_coord_spec(px as int),
                    ry as int == state.map.sector_coord_spec(py as int),
                    0 <= rxu == rx,
                    0 <= ryu == ry,
                    n == cands(state.map, rx as int, ry as int).len(),
                    j <= n,
                    result == (carry || found),
                    found == exists|jj: int|
                        jj < j && #[trigger] skel_cand_hit(state.map, px as int, py as int, jj),
                    !found ==> *self == *old(self),
                    found ==> (exists|pid: int|
                        #[trigger] skeleton_hit_resp(
                            state.map,
                            px as int,
                            py as int,
                            pid,
                            old(self).skeleton.old_pos@[i as int],
                            self.skeleton.pos@[i as int].x as int,
                            self.skeleton.pos@[i as int].y as int,
                        )),
                    found ==> in_box(self.skeleton.pos@[i as int], 1_400_000_300),
                decreases n - j,
            {
                proof {
                    reveal(crate::soldier::skel_cand_hit);
                    reveal(crate::soldier::skel_any_hit);
                }
                let polyid: usize = state.map.sectors_poly[rxu][ryu][j];
                let poly: Polygon = state.map.polygons[polyid - 1];
                let polytype: PolyType = poly.polytype;
                if polytype != PolyType::NoCollide && polytype != PolyType::OnlyBulletsCollide {
                    if state.map.point_in_poly_edges(px, py, polyid - 1) {
                        proof {
                            assert(skel_cand_hit(state.map, px as int, py as int, j as int));
                        }
                        let pp: Vec2 = vec2(px, py);
                        let q: (Vec2, i64, i32) = state.map.closest_perpendicular(polyid - 1, pp);
                        let d: i64 = q.1;
                        let un: Vec2 = q.0.normalized();
                        proof {
                            crate::fx::lemma_unit_scale_bound(un.x as int, d as int, 1_200_000_002);
                            crate::fx::lemma_unit_scale_bound(un.y as int, d as int, 1_200_000_002);
                        }
                        let perp: Vec2 = un.scaled(d);
                        let op: Vec2 = self.skeleton.old_pos[i];
                        let np: Vec2 = vec2(op.x - perp.x, op.y - perp.y);
                        self.skeleton.pos[i] = np;
                        proof {
                            reveal(crate::soldier::skeleton_hit_resp);
                            assert(cands(state.map, rx as int, ry as int)[j as int]
                                == polyid as int);
                            assert(self.skeleton.pos@[i as int] == np);
                            assert(skeleton_hit_resp(state.map, px as int, py as int,
                                polyid as int, old(self).skeleton.old_pos@[i as int],
                                self.skeleton.pos@[i as int].x as int,
                                self.skeleton.pos@[i as int].y as int));
                            found = true;
                        }
                        result = true;
                    }
                }
                j += 1;
            }
            proof {
                reveal(crate::soldier::skel_cand_hit);
                reveal(crate::soldier::skel_any_hit);
                if found {
                    assert(skel_any_hit(state.map, px as int, py as int));
                } else {
                    assert forall|jj: int| !skel_cand_hit(
                        state.map,
                        px as int,
                        py as int,
                        jj,
                    ) by {
                        if 0 <= jj < n {
                            assert(!skel_cand_hit(state.map, px as int, py as int, jj));
                        }
                    }
                    assert(!skel_any_hit(state.map, px as int, py as int));
                }
            }
        } else {
            proof {
                reveal(crate::soldier::skel_cand_hit);
                reveal(crate::soldier::skel_any_hit);
                assert(!skel_any_hit(state.map, px as int, py as int));
            }
        }
        result
    }
}

/// Marching a velocity in `det` equal truncated steps never overshoots it.
pub proof fn lemma_march_bound(v: int, det: int, z: int)
    requires
        det >= 1,
        0 <= z <= det,
    ensures
        z * iabs(crate::fx::tdiv_spec(v, det)) <= iabs(v),
{
    let q = iabs(crate::fx::tdiv_spec(v, det));
    if v >= 0 {
        assert(det * (v / det) <= v && v / det >= 0) by (nonlinear_arith)
            requires
                v >= 0,
                det >= 1,
        ;
        assert(z * q <= det * q) by (nonlinear_arith)
            requires
                0 <= z <= det,
                q >= 0,
        ;
    } else {
        assert(det * ((-v) / det) <= -v && (-v) / det >= 0) by (nonlinear_arith)
            requires
                v < 0,
                det >= 1,
        ;
        assert(z * q <= det * q) by (nonlinear_arith)
            requires
                0 <= z <= det,
                q >= 0,
        ;
    }
}

/// Stepping away from a vertex along the outward unit vector never brings
/// the probe point closer to that vertex: the squared distance from the
/// corrected point `(dx, dy) + unit(dx, dy)` to the origin-placed vertex is
/// at least the squared distance before the correction. This is the
/// no-deeper-penetration guarantee of the corner probe.
pub proof fn lemma_vertex_correction_recedes(dx: int, dy: int)
    ensures
        (dx + norm_xi(dx, dy)) * (dx + norm_xi(dx, dy)) + (dy + norm_yi(dx, dy)) * (dy + norm_yi(
            dx,
            dy,
        )) >= dx * dx + dy * dy,
{
    let nx = norm_xi(dx, dy);
    let ny = norm_yi(dx, dy);
    let l = len_i(dx, dy);
    if l == 0 {
        assert(nx == 0 && ny == 0);
        assert((dx + 0) * (dx + 0) + (dy + 0) * (dy + 0) >= dx * dx + dy * dy) by (nonlinear_arith);
    } else {
        assert(dx * (FX_ONE as int) >= 0 <==> dx >= 0) by (nonlinear_arith);
        assert(dy * (FX_ONE as int) >= 0 <==> dy >= 0) by (nonlinear_arith);
        if dx >= 0 {
            assert((dx * FX_ONE) / l >= 0) by (nonlinear_arith)
                requires
                    dx * FX_ONE >= 0,
                    l >= 1,
            ;
        } else {
            assert((-(dx * FX_ONE)) / l >= 0) by (nonlinear_arith)
                requires
                    -(dx * FX_ONE) >= 0,
                    l >= 1,
            ;
        }
        if dy >= 0 {
            assert((dy * FX_ONE) / l >= 0) by (nonlinear_arith)
                requires
                    dy * FX_ONE >= 0,
                    l >= 1,
            ;
        } else {
            assert((-(dy * FX_ONE)) / l >= 0) by (nonlinear_arith)
                requires
                    -(dy * FX_ONE) >= 0,
                    l >= 1,
            ;
        }
        assert(dx * nx >= 0) by (nonlinear_arith)
            requires
                (dx >= 0 && nx >= 0) || (dx < 0 && nx <= 0),
        ;
        assert(dy * ny >= 0) by (nonlinear_arith)
            requires
                (dy >= 0 && ny >= 0) || (dy < 0 && ny <= 0),
        ;
        assert((dx + nx) * (dx + nx) + (dy + ny) * (dy + ny) >= dx * dx + dy * dy)
            by (nonlinear_arith)
            requires
                dx * nx >= 0,
                dy * ny >= 0,
        ;
    }
}

impl Soldier {
    /// A freshly spawned soldier bound to slot 1 of the particle store,
    /// placed at the map's first spawn point, with a 31-joint skeleton and
    /// the default loadout.
    pub fn new(state: &mut MainState) -> (r: Soldier)
        requires
            old(state).wf(),
            old(state).soldier_parts.pos@.len() > 1,
        ensures
            r.wf(),
            final(state).wf(),
            final(state).map == old(state).map,
            r.num == 1,
            r.active,
            r.lifecycle == Lifecycle::Alive,
            r.direction == 1,
            r.old_direction == 1,
            !r.on_ground && !r.on_ground_for_law && !r.on_ground_last_frame
                && !r.on_ground_permanent,
            r.health == 150 * FX_ONE,
            r.jets_count == 0,
            r.control == crate::control::control_idle(),
            r.active_weapon == 0,
            r.weapons@[0].kind == WeaponKind::DesertEagles,
            r.weapons@[1].kind == WeaponKind::Chainsaw,
            r.weapons@[2].kind == WeaponKind::FragGrenade,
            r.legs_animation.id == Anim::Stand,
            r.body_animation.id == Anim::Stand,
            r.skeleton.pos@.len() == 31,
            r.skeleton.gravity == 636,
            r.skeleton.v_damping == 9945,
            forall|i: int| 0 <= i < 31 ==> in_box(#[trigger] r.skeleton.pos@[i], WORLD_BOX as int),
            forall|i: int|
                0 <= i < 31 ==> in_box(#[trigger] r.skeleton.old_pos@[i], WORLD_BOX as int),
            final(state).soldier_parts.pos@ == old(state).soldier_parts.pos@.update(
                1,
                old(state).map.spawnpoints@[0],
            ),
            final(state).soldier_parts.old_pos@ == old(state).soldier_parts.old_pos@.update(
                1,
                old(state).map.spawnpoints@[0],
            ),
            final(state).soldier_parts.velocity@ == old(state).soldier_parts.velocity@.update(
                1,
                (Vec2 { x: 0, y: 0 }),
            ),
            final(state).soldier_parts.forces@ == old(state).soldier_parts.forces@.update(
                1,
                (Vec2 { x: 0, y: 0 }),
            ),
    {
        let control: Control = Default::default();
        let mut gostek: ParticleSystem = ParticleSystem::new(31, 636, 9945);
        proof {
            assert forall|k: int| 0 <= k < 31 implies in_box(
                #[trigger] gostek.pos@[k],
                WORLD_BOX as int,
            ) by {
                assert(gostek.pos@[k] == (Vec2 { x: 0, y: 0 }));
            }
            assert forall|k: int| 0 <= k < 31 implies in_box(
                #[trigger] gostek.old_pos@[k],
                WORLD_BOX as int,
            ) by {
                assert(gostek.pos@[k] == (Vec2 { x: 0, y: 0 }));
                assert(gostek.old_pos@[k] == (Vec2 { x: 0, y: 0 }));
            }
        }
        let mut i: usize = 1;
        while i < 31
            invariant
                1 <= i <= 31,
                gostek.wf(),
                gostek.pos@.len() == 31,
                gostek.gravity == 636,
                gostek.v_damping == 9945,
                forall|k: int| 0 <= k < 31 ==> in_box(#[trigger] gostek.pos@[k], WORLD_BOX as int),
                forall|k: int|
                    0 <= k < 31 ==> in_box(#[trigger] gostek.old_pos@[k], WORLD_BOX as int),
            decreases 31 - i,
        {
            gostek.active[i] = true;
            i += 1;
        }
        let sp: Vec2 = state.map.spawnpoints[0];
        state.soldier_parts.create_part(sp, vec2(0, 0), 1);
        let mut weapons: Vec<Weapon> = Vec::new();
        weapons.push(Weapon::new(WeaponKind::DesertEagles));
        weapons.push(Weapon::new(WeaponKind::Chainsaw));
        weapons.push(Weapon::new(WeaponKind::FragGrenade));
        Soldier {
            active: true,
            lifecycle: Lifecycle::Alive,
            style: 0,
            num: 1,
            visible: 1,
            on_ground: false,
            on_ground_for_law: false,
            on_ground_last_frame: false,
            on_ground_permanent: false,
            direction: 1,
            old_direction: 1,
            health: 150 * FX_ONE,
            alpha: 255,
            jets_count: 0,
            jets_count_prev: 0,
            wear_helmet: 0,
            has_cigar: 1,
            vest: 0,
            idle_time: 0,
            idle_random: 0,
            position: 0,
            on_fire: 0,
            collider_distance: 255,
            skeleton: gostek,
            legs_animation: AnimState::new(Anim::Stand),
            body_animation: AnimState::new(Anim::Stand),
            control,
            active_weapon: 0,
            weapons,
            fired: 0,
        }
    }
}

/// Every joint's current position lies within `b`.
pub open spec fn skel_pos_boxed(ps: ParticleSystem, b: int) -> bool {
    forall|i: int| 0 <= i < ps.pos@.len() ==> in_box(#[trigger] ps.pos@[i], b)
}

/// Every joint's previous position lies within `b`.
pub open spec fn skel_old_boxed(ps: ParticleSystem, b: int) -> bool {
    forall|i: int| 0 <= i < ps.old_pos@.len() ==> in_box(#[trigger] ps.old_pos@[i], b)
}

impl Soldier {
    /// One game tick: carry the body's motion into the helper joints,
    /// recompute the facing from the aim, synthesize the skeleton pose from
    /// the animation clips, override the aiming joints, resolve collisions
    /// against the map, classify ground contact with hysteresis, regenerate
    /// jet fuel, integrate the skeleton, and clamp the velocity.
    #[verifier::rlimit(100)]
    pub fn update(&mut self, state: &mut MainState)
        requires
            old(self).wf(),
            old(state).wf(),
            old(self).num < old(state).soldier_parts.pos@.len(),
            in_box(old(state).soldier_parts.pos@[old(self).num as int], WORLD_BOX as int),
            in_box(old(state).soldier_parts.old_pos@[old(self).num as int], WORLD_BOX as int),
            in_box(old(state).soldier_parts.velocity@[old(self).num as int], 300_000),
            in_box(old(state).soldier_parts.forces@[old(self).num as int], 300_000),
            iabs(old(self).control.mouse_aim_x as int) <= WORLD_BOX,
            iabs(old(self).control.mouse_aim_y as int) <= WORLD_BOX,
            skel_pos_boxed(old(self).skeleton, WORLD_BOX as int),
            skel_old_boxed(old(self).skeleton, WORLD_BOX as int),
        ensures
            final(self).wf(),
            final(state).wf(),
            final(state).map == old(state).map,
            final(state).soldier_parts.pos@.len() == old(state).soldier_parts.pos@.len(),
            final(self).num == old(self).num,
            final(self).lifecycle == old(self).lifecycle,
            final(self).control == old(self).control,
            forall|j: int|
                0 <= j < old(state).soldier_parts.pos@.len() && j != old(self).num
                    ==> #[trigger] final(state).soldier_parts.pos@[j] == old(state).soldier_parts.pos@[j],
            forall|j: int|
                0 <= j < old(state).soldier_parts.pos@.len() && j != old(self).num
                    ==> #[trigger] final(state).soldier_parts.old_pos@[j] == old(state).soldier_parts.old_pos@[j],
            forall|j: int|
                0 <= j < old(state).soldier_parts.pos@.len() && j != old(self).num
                    ==> #[trigger] final(state).soldier_parts.velocity@[j] == old(state).soldier_parts.velocity@[j],
            forall|j: int|
                0 <= j < old(state).soldier_parts.pos@.len() && j != old(self).num
                    ==> #[trigger] final(state).soldier_parts.forces@[j] == old(state).soldier_parts.forces@[j],
            iabs(final(state).soldier_parts.velocity@[old(self).num as int].x as int)
                <= MAX_VELOCITY,
            iabs(final(state).soldier_parts.velocity@[old(self).num as int].y as int)
                <= MAX_VELOCITY,
            final(self).direction == (if old(self).control.mouse_aim_x >= old(state).soldier_parts.pos@[old(self).num as int].x {
                1
            } else {
                -1
            }),
            old(self).lifecycle != Lifecycle::Dead ==> final(self).on_ground_last_frame == final(self).on_ground && final(self).on_ground_permanent == (if final(self).on_ground == old(self).on_ground_last_frame {
                final(self).on_ground
            } else {
                old(self).on_ground_permanent
            }),
            old(self).lifecycle == Lifecycle::Dead ==> final(self).on_ground_permanent == old(self).on_ground_permanent && final(self).on_ground_last_frame == old(self).on_ground_last_frame,
            old(self).lifecycle == Lifecycle::Dead ==> final(state).soldier_parts.pos@[old(self).num as int] == final(self).skeleton.pos@[12],
            old(self).lifecycle != Lifecycle::Dead ==> final(self).jets_count == (if old(self).jets_count < old(state).map.start_jet && !old(self).control.jets {
                old(self).jets_count as int + 1
            } else {
                old(self).jets_count as int
            }),
            old(self).lifecycle == Lifecycle::Dead ==> final(self).jets_count == old(self).jets_count,
            *final(self) == (Soldier {
                skeleton: final(self).skeleton,
                direction: final(self).direction,
                on_ground: final(self).on_ground,
                on_ground_for_law: final(self).on_ground_for_law,
                on_ground_last_frame: final(self).on_ground_last_frame,
                on_ground_permanent: final(self).on_ground_permanent,
                jets_count: final(self).jets_count,
                alpha: final(self).alpha,
                legs_animation: final(self).legs_animation,
                body_animation: final(self).body_animation,
                ..*old(self)
            }),
            old(self).lifecycle != Lifecycle::Dead ==> crate::anims::advanced_once(
                old(self).legs_animation,
                final(self).legs_animation,
            ) && crate::anims::advanced_once(old(self).body_animation, final(self).body_animation),
            old(self).lifecycle == Lifecycle::Dead ==> final(self).legs_animation == old(self).legs_animation && final(self).body_animation == old(self).body_animation && final(self).jets_count == old(self).jets_count && final(self).alpha == old(self).alpha,
            old(self).lifecycle == Lifecycle::Dead ==> final(state).soldier_parts.old_pos@ == old(state).soldier_parts.old_pos@ && final(state).soldier_parts.forces@ == old(state).soldier_parts.forces@,
            old(self).lifecycle == Lifecycle::Dead ==> final(state).soldier_parts.velocity@[old(self).num as int].x == crate::fx::clamp_spec(
                old(state).soldier_parts.velocity@[old(self).num as int].x as int,
                MAX_VELOCITY as int,
            ) && final(state).soldier_parts.velocity@[old(self).num as int].y == crate::fx::clamp_spec(
                old(state).soldier_parts.velocity@[old(self).num as int].y as int,
                MAX_VELOCITY as int,
            ),
            old(self).lifecycle == Lifecycle::Dead ==> final(self).on_ground == skel_any_hit(
                old(state).map,
                old(state).soldier_parts.pos@[old(self).num as int].x - FX_ONE,
                old(state).soldier_parts.pos@[old(self).num as int].y + 4 * FX_ONE,
            ),
            old(self).lifecycle == Lifecycle::Alive ==> ({
                let pp = old(state).soldier_parts.pos@[old(self).num as int];
                let dirpos = old(self).control.mouse_aim_x >= pp.x;
                &&& forall|i: int|
                    1 <= i < 21 && old(self).skeleton.active@[i] && (i <= 6 || i == 17 || i == 18)
                        ==> #[trigger] final(self).skeleton.pos@[i].x == pose_leg_x(
                        *old(self),
                        pp,
                        dirpos,
                        i,
                    ) && final(self).skeleton.pos@[i].y == pose_leg_y(*old(self), pp, i)
                &&& not_aiming(old(self).body_animation.id) && old(self).skeleton.active@[15]
                    ==> final(self).skeleton.pos@[15].x == pose_body_x(*old(self), pp, dirpos, 15)
                    && final(self).skeleton.pos@[15].y == pose_body_y(*old(self), pp, 15)
                &&& not_aiming(old(self).body_animation.id) && old(self).skeleton.active@[19]
                    ==> final(self).skeleton.pos@[19].x == pose_body_x(*old(self), pp, dirpos, 19)
                    && final(self).skeleton.pos@[19].y == pose_body_y(*old(self), pp, 19)
            }),
            in_box(final(state).soldier_parts.pos@[old(self).num as int], 3_200_000_000),
            skel_pos_boxed(final(self).skeleton, 3_200_000_000),
    {
        let num: usize = self.num;

        self.synthesize_pose(state);

        if self.lifecycle != Lifecycle::Alive {
            let mut k: usize = 1;
            while k < 17
                invariant
                    old(self).wf(),
                    old(state).wf(),
                    *state == *old(state),
                    num == old(self).num < old(state).soldier_parts.pos@.len(),
                    in_box(old(state).soldier_parts.pos@[num as int], WORLD_BOX as int),
                    self.wf(),
                    self.num == num,
                    self.lifecycle == old(self).lifecycle,
                    self.control == old(self).control,
                    self.legs_animation == old(self).legs_animation,
                    self.body_animation == old(self).body_animation,
                    self.on_ground_last_frame == old(self).on_ground_last_frame,
                    self.on_ground_permanent == old(self).on_ground_permanent,
                    self.jets_count == old(self).jets_count,
                    self.direction == (if old(self).control.mouse_aim_x >= old(state).soldier_parts.pos@[num as int].x {
                        1int
                    } else {
                        -1int
                    }),
                    self.skeleton.pos@.len() == old(self).skeleton.pos@.len(),
                    self.skeleton.active@ == old(self).skeleton.active@,
                    self.skeleton.gravity == old(self).skeleton.gravity,
                    self.skeleton.v_damping == old(self).skeleton.v_damping,
                    skel_pos_boxed(self.skeleton, 1_400_000_300),
                    skel_old_boxed(self.skeleton, 105_000_000),
                    forall|ii: int|
                        21 <= ii <= 30 ==> in_box(#[trigger] self.skeleton.pos@[ii], 250_000_000),
                    *self == (Soldier {
                        skeleton: self.skeleton,
                        direction: self.direction,
                        on_ground: self.on_ground,
                        ..*old(self)
                    }),
                    k >= 2 ==> self.on_ground == skel_any_hit(
                        old(state).map,
                        old(state).soldier_parts.pos@[num as int].x - FX_ONE,
                        old(state).soldier_parts.pos@[num as int].y + 4 * FX_ONE,
                    ),
                    1 <= k <= 17,
                decreases 17 - k,
            {
                if k != 7 && k != 8 {
                    let position: Vec2 = state.soldier_parts.pos[num];
                    let hit: bool = self.check_skeleton_map_collision(
                        state,
                        k,
                        position.x,
                        position.y,
                    );
                    self.on_ground = hit;
                }
                k += 1;
            }
        }

        if self.lifecycle != Lifecycle::Dead {
            proof {
                assert forall|ii: int| 21 <= ii <= 30 implies in_box(
                    #[trigger] self.skeleton.pos@[ii],
                    250_000_000,
                ) by {
                    assert(0 <= ii < self.skeleton.pos@.len());
                }
            }
            self.tick_alive(state);
        }

        if self.lifecycle == Lifecycle::Dead {
            proof {
                assert forall|ii: int|
                    0 <= ii < self.skeleton.pos@.len() && self.skeleton.active@[ii] implies (in_box(
                    #[trigger] self.skeleton.pos@[ii],
                    1_500_000_000,
                ) && in_box(self.skeleton.old_pos@[ii], 1_500_000_000)) by {
                    assert(in_box(self.skeleton.pos@[ii], 1_400_000_300));
                    assert(in_box(self.skeleton.old_pos@[ii], 105_000_000));
                }
            }
            self.skeleton.do_verlet_timestep();
            let hp: Vec2 = self.skeleton.pos[12];
            state.soldier_parts.pos[num] = hp;
        }

        let vfin: Vec2 = state.soldier_parts.velocity[num];
        state.soldier_parts.velocity[num] = vec2(
            crate::fx::clamp_fx(vfin.x, MAX_VELOCITY),
            crate::fx::clamp_fx(vfin.y, MAX_VELOCITY),
        );
    }
}

impl Soldier {
    /// The living soldier's part of the tick: advance the clips, run the
    /// ground probes, classify ground contact with hysteresis, regenerate
    /// jet fuel, and integrate the two motion-carrying helper joints.
    #[verifier::rlimit(100)]
    fn tick_alive(&mut self, state: &mut MainState)
        requires
            old(self).wf(),
            old(state).wf(),
            old(self).lifecycle != Lifecycle::Dead,
            old(self).num < old(state).soldier_parts.pos@.len(),
            in_box(old(state).soldier_parts.pos@[old(self).num as int], WORLD_BOX as int),
            in_box(old(state).soldier_parts.old_pos@[old(self).num as int], WORLD_BOX as int),
            in_box(old(state).soldier_parts.velocity@[old(self).num as int], 300_000),
            in_box(old(state).soldier_parts.forces@[old(self).num as int], 300_000),
            skel_pos_boxed(old(self).skeleton, 1_400_000_300),
            skel_old_boxed(old(self).skeleton, 105_000_000),
            forall|ii: int|
                21 <= ii <= 30 ==> in_box(#[trigger] old(self).skeleton.pos@[ii], 250_000_000),
        ensures
            final(self).wf(),
            final(state).wf(),
            final(state).map == old(state).map,
            final(state).soldier_parts.pos@.len() == old(state).soldier_parts.pos@.len(),
            final(self).num == old(self).num,
            final(self).lifecycle == old(self).lifecycle,
            final(self).control == old(self).control,
            final(self).direction == old(self).direction,
            final(self).skeleton.pos@.len() == old(self).skeleton.pos@.len(),
            forall|j: int|
                0 <= j < old(state).soldier_parts.pos@.len() && j != old(self).num
                    ==> #[trigger] final(state).soldier_parts.pos@[j] == old(state).soldier_parts.pos@[j],
            forall|j: int|
                0 <= j < old(state).soldier_parts.pos@.len() && j != old(self).num
                    ==> #[trigger] final(state).soldier_parts.old_pos@[j] == old(state).soldier_parts.old_pos@[j],
            forall|j: int|
                0 <= j < old(state).soldier_parts.pos@.len() && j != old(self).num
                    ==> #[trigger] final(state).soldier_parts.velocity@[j] == old(state).soldier_parts.velocity@[j],
            forall|j: int|
                0 <= j < old(state).soldier_parts.pos@.len() && j != old(self).num
                    ==> #[trigger] final(state).soldier_parts.forces@[j] == old(state).soldier_parts.forces@[j],
            final(self).on_ground_last_frame == final(self).on_ground,
            final(self).on_ground_permanent == (if final(self).on_ground == old(self).on_ground_last_frame {
                final(self).on_ground
            } else {
                old(self).on_ground_permanent
            }),
            final(self).jets_count == (if old(self).jets_count < old(state).map.start_jet && !old(self).control.jets {
                old(self).jets_count as int + 1
            } else {
                old(self).jets_count as int
            }),
            *final(self) == (Soldier {
                skeleton: final(self).skeleton,
                on_ground: final(self).on_ground,
                on_ground_for_law: final(self).on_ground_for_law,
                on_ground_last_frame: final(self).on_ground_last_frame,
                on_ground_permanent: final(self).on_ground_permanent,
                jets_count: final(self).jets_count,
                alpha: final(self).alpha,
                legs_animation: final(self).legs_animation,
                body_animation: final(self).body_animation,
                ..*old(self)
            }),
            crate::anims::advanced_once(old(self).legs_animation, final(self).legs_animation),
            crate::anims::advanced_once(old(self).body_animation, final(self).body_animation),
            forall|ii: int|
                0 <= ii < old(self).skeleton.pos@.len() && !(22 <= ii <= 30)
                    ==> #[trigger] final(self).skeleton.pos@[ii] == old(self).skeleton.pos@[ii],
            in_box(final(state).soldier_parts.pos@[old(self).num as int], 210_000_000),
            in_box(final(state).soldier_parts.velocity@[old(self).num as int], 1_800_000_000),
            skel_pos_boxed(final(self).skeleton, 3_100_000_000),
    {
        let num: usize = self.num;
        self.body_animation.do_animation();
        self.legs_animation.do_animation();

        self.resolve_body_collisions(state);

        if !(self.on_ground ^ self.on_ground_last_frame) {
            self.on_ground_permanent = self.on_ground;
        }
        self.on_ground_last_frame = self.on_ground;

        if self.jets_count < state.map.start_jet && !self.control.jets {
            self.jets_count += 1;
        }

        self.alpha = 255;

        self.integrate_upper_joints();
        proof {
            assert forall|jj: int|
                0 <= jj < old(state).soldier_parts.pos@.len() && jj
                    != num as int implies #[trigger] state.soldier_parts.pos@[jj] == old(
                state,
            ).soldier_parts.pos@[jj] by {}
            assert forall|jj: int|
                0 <= jj < old(state).soldier_parts.pos@.len() && jj
                    != num as int implies #[trigger] state.soldier_parts.old_pos@[jj] == old(
                state,
            ).soldier_parts.old_pos@[jj] by {
                assert(state.soldier_parts.pos@[jj] == state.soldier_parts.pos@[jj]);
            }
            assert forall|jj: int|
                0 <= jj < old(state).soldier_parts.pos@.len() && jj
                    != num as int implies #[trigger] state.soldier_parts.velocity@[jj] == old(
                state,
            ).soldier_parts.velocity@[jj] by {
                assert(state.soldier_parts.pos@[jj] == state.soldier_parts.pos@[jj]);
            }
            assert forall|jj: int|
                0 <= jj < old(state).soldier_parts.pos@.len() && jj
                    != num as int implies #[trigger] state.soldier_parts.forces@[jj] == old(
                state,
            ).soldier_parts.forces@[jj] by {
                assert(state.soldier_parts.pos@[jj] == state.soldier_parts.pos@[jj]);
            }
        }
    }
}

impl Soldier {
    /// The living soldier's collision pass: two landing probes above the
    /// shoulders, two probe-mode probes at the feet, the body-circle probe,
    /// and the corner probe, folding the results into the ground flags.
    #[verifier::rlimit(100)]
    fn resolve_body_collisions(&mut self, state: &mut MainState)
        requires
            old(self).wf(),
            old(state).wf(),
            old(self).num < old(state).soldier_parts.pos@.len(),
            in_box(old(state).soldier_parts.pos@[old(self).num as int], WORLD_BOX as int),
            in_box(old(state).soldier_parts.old_pos@[old(self).num as int], WORLD_BOX as int),
            in_box(old(state).soldier_parts.velocity@[old(self).num as int], 300_000),
            in_box(old(state).soldier_parts.forces@[old(self).num as int], 300_000),
        ensures
            final(self).wf(),
            final(state).wf(),
            final(state).map == old(state).map,
            final(state).soldier_parts.pos@.len() == old(state).soldier_parts.pos@.len(),
            *final(self) == (Soldier {
                on_ground: final(self).on_ground,
                on_ground_for_law: final(self).on_ground_for_law,
                ..*old(self)
            }),
            forall|j: int|
                0 <= j < old(state).soldier_parts.pos@.len() && j != old(self).num
                    ==> #[trigger] final(state).soldier_parts.pos@[j] == old(state).soldier_parts.pos@[j],
            forall|j: int|
                0 <= j < old(state).soldier_parts.pos@.len() && j != old(self).num
                    ==> #[trigger] final(state).soldier_parts.old_pos@[j] == old(state).soldier_parts.old_pos@[j],
            forall|j: int|
                0 <= j < old(state).soldier_parts.pos@.len() && j != old(self).num
                    ==> #[trigger] final(state).soldier_parts.velocity@[j] == old(state).soldier_parts.velocity@[j],
            forall|j: int|
                0 <= j < old(state).soldier_parts.pos@.len() && j != old(self).num
                    ==> #[trigger] final(state).soldier_parts.forces@[j] == old(state).soldier_parts.forces@[j],
            in_box(final(state).soldier_parts.pos@[old(self).num as int], 210_000_000),
            in_box(final(state).soldier_parts.velocity@[old(self).num as int], 1_800_000_000),
    {
        let num: usize = self.num;
            self.on_ground = false;

            let pa: Vec2 = state.soldier_parts.pos[num];
            self.check_map_collision(state, pa.x - 35_000, pa.y - 120_000, 1);
            let pb: Vec2 = state.soldier_parts.pos[num];
            self.check_map_collision(state, pb.x + 35_000, pb.y - 120_000, 1);

            let mut stance_y: i64 = 0;
            let mut stance_a: i64 = 0;
            if self.control.left != self.control.right {
                if self.control.left != (self.direction == 1) {
                    stance_a = 2_500;
                } else {
                    stance_y = 2_500;
                }
            }
            if stance_y == 0 {
                stance_y = 2_500;
            }
            if stance_a == 0 {
                stance_a = 2_500;
            }

            let pc: Vec2 = state.soldier_parts.pos[num];
            let g1: bool = self.check_map_collision(
                state,
                pc.x + 20_000,
                pc.y + 20_000 - stance_y,
                0,
            );
            self.on_ground = g1;
            let pd: Vec2 = state.soldier_parts.pos[num];
            let g2: bool = self.check_map_collision(
                state,
                pd.x - 20_000,
                pd.y + 20_000 - stance_a,
                0,
            );
            self.on_ground = self.on_ground || g2;

            let pe: Vec2 = state.soldier_parts.pos[num];
            let grounded: bool = self.on_ground;
            self.on_ground_for_law = self.check_radius_map_collision(state, pe.x, pe.y, grounded);

            let grounded2: bool = self.on_ground || self.on_ground_for_law;
            let g3: bool = self.check_map_vertices_collision(
                state,
                pe.x,
                pe.y,
                3 * FX_ONE,
                grounded2,
            );
            self.on_ground = g3 || self.on_ground;
        proof {
            assert forall|jj: int|
                0 <= jj < old(state).soldier_parts.pos@.len() && jj
                    != num as int implies #[trigger] state.soldier_parts.pos@[jj] == old(
                state,
            ).soldier_parts.pos@[jj] by {}
            assert forall|jj: int|
                0 <= jj < old(state).soldier_parts.pos@.len() && jj
                    != num as int implies #[trigger] state.soldier_parts.old_pos@[jj] == old(
                state,
            ).soldier_parts.old_pos@[jj] by {
                assert(state.soldier_parts.pos@[jj] == state.soldier_parts.pos@[jj]);
            }
            assert forall|jj: int|
                0 <= jj < old(state).soldier_parts.pos@.len() && jj
                    != num as int implies #[trigger] state.soldier_parts.velocity@[jj] == old(
                state,
            ).soldier_parts.velocity@[jj] by {
                assert(state.soldier_parts.pos@[jj] == state.soldier_parts.pos@[jj]);
            }
            assert forall|jj: int|
                0 <= jj < old(state).soldier_parts.pos@.len() && jj
                    != num as int implies #[trigger] state.soldier_parts.forces@[jj] == old(
                state,
            ).soldier_parts.forces@[jj] by {
                assert(state.soldier_parts.pos@[jj] == state.soldier_parts.pos@[jj]);
            }
        }
    }
}

impl Soldier {
    /// Integrate the two velocity-carrying helper joints and their
    /// neighbours: the bounded-range Verlet steps of a living tick.
    #[verifier::rlimit(100)]
    fn integrate_upper_joints(&mut self)
        requires
            old(self).wf(),
            skel_pos_boxed(old(self).skeleton, 1_400_000_300),
            skel_old_boxed(old(self).skeleton, 105_000_000),
            forall|ii: int|
                21 <= ii <= 30 ==> in_box(#[trigger] old(self).skeleton.pos@[ii], 250_000_000),
        ensures
            final(self).wf(),
            *final(self) == (Soldier { skeleton: final(self).skeleton, ..*old(self) }),
            final(self).skeleton.pos@.len() == old(self).skeleton.pos@.len(),
            final(self).skeleton.active@ == old(self).skeleton.active@,
            final(self).skeleton.gravity == old(self).skeleton.gravity,
            final(self).skeleton.v_damping == old(self).skeleton.v_damping,
            forall|ii: int|
                0 <= ii < old(self).skeleton.pos@.len() && !(22 <= ii <= 30)
                    ==> #[trigger] final(self).skeleton.pos@[ii] == old(self).skeleton.pos@[ii],
            skel_pos_boxed(final(self).skeleton, 3_100_000_000),
    {
        proof {
            assert(self.skeleton == old(self).skeleton);
            assert forall|ii: int|
                22 <= ii <= 29 && self.skeleton.active@[ii] implies (in_box(
                #[trigger] self.skeleton.pos@[ii],
                1_500_000_000,
            ) && in_box(self.skeleton.old_pos@[ii], 1_500_000_000)) by {
                assert(0 <= ii < old(self).skeleton.pos@.len());
                assert(in_box(old(self).skeleton.pos@[ii], 250_000_000));
                assert(in_box(old(self).skeleton.old_pos@[ii], 105_000_000));
            }
        }
        self.skeleton.do_verlet_timestep_for(22, 29);
        let ghost mid = self.skeleton;
        proof {
            assert forall|ii: int|
                24 <= ii <= 30 && mid.active@[ii] implies (in_box(
                #[trigger] mid.pos@[ii],
                1_500_000_000,
            ) && in_box(mid.old_pos@[ii], 1_500_000_000)) by {
                assert(0 <= ii < mid.pos@.len());
                assert(in_box(old(self).skeleton.pos@[ii], 250_000_000));
                assert(in_box(old(self).skeleton.old_pos@[ii], 105_000_000));
                if 22 <= ii <= 29 && mid.active@[ii] {
                    assert(iabs(mid.pos@[ii].x as int) <= iabs(old(self).skeleton.pos@[ii].x as int)
                        + iabs(old(self).skeleton.pos@[ii].x - old(self).skeleton.old_pos@[ii].x));
                    assert(iabs(mid.pos@[ii].y as int) <= iabs(old(self).skeleton.pos@[ii].y as int)
                        + iabs(old(self).skeleton.pos@[ii].y - old(self).skeleton.old_pos@[ii].y)
                        + FX_ONE);
                    assert(mid.old_pos@[ii] == old(self).skeleton.pos@[ii]);
                } else {
                    assert(mid.pos@[ii] == old(self).skeleton.pos@[ii]);
                    assert(mid.old_pos@[ii] == old(self).skeleton.old_pos@[ii]);
                }
            }
        }
        self.skeleton.do_verlet_timestep_for(24, 30);
        proof {
            assert forall|ii: int|
                0 <= ii < self.skeleton.pos@.len() implies in_box(
                #[trigger] self.skeleton.pos@[ii],
                3_100_000_000,
            ) by {
                assert(in_box(old(self).skeleton.pos@[ii], 1_400_000_300));
                assert(in_box(old(self).skeleton.old_pos@[ii], 105_000_000));
                if 21 <= ii <= 30 {
                    assert(in_box(old(self).skeleton.pos@[ii], 250_000_000));
                    if 22 <= ii <= 29 && mid.active@[ii] {
                        assert(iabs(mid.pos@[ii].x as int) <= iabs(
                            old(self).skeleton.pos@[ii].x as int,
                        ) + iabs(old(self).skeleton.pos@[ii].x - old(self).skeleton.old_pos@[ii].x));
                        assert(iabs(mid.pos@[ii].y as int) <= iabs(
                            old(self).skeleton.pos@[ii].y as int,
                        ) + iabs(old(self).skeleton.pos@[ii].y - old(self).skeleton.old_pos@[ii].y)
                            + FX_ONE);
                        assert(mid.old_pos@[ii] == old(self).skeleton.pos@[ii]);
                    } else {
                        assert(mid.pos@[ii] == old(self).skeleton.pos@[ii]);
                        assert(mid.old_pos@[ii] == old(self).skeleton.old_pos@[ii]);
                    }
                    assert(in_box(mid.pos@[ii], 620_000_000));
                    assert(in_box(mid.old_pos@[ii], 250_000_000));
                    if 24 <= ii <= 30 && mid.active@[ii] {
                        assert(iabs(self.skeleton.pos@[ii].x as int) <= iabs(mid.pos@[ii].x as int)
                            + iabs(mid.pos@[ii].x - mid.old_pos@[ii].x));
                        assert(iabs(self.skeleton.pos@[ii].y as int) <= iabs(mid.pos@[ii].y as int)
                            + iabs(mid.pos@[ii].y - mid.old_pos@[ii].y) + FX_ONE);
                    } else {
                        assert(self.skeleton.pos@[ii] == mid.pos@[ii]);
                    }
                } else {
                    assert(mid.pos@[ii] == old(self).skeleton.pos@[ii]);
                    assert(self.skeleton.pos@[ii] == mid.pos@[ii]);
                }
            }
        }
    }
}


/// The stance- and clip-dependent vertical body offset of the pose.
pub open spec fn stance_body_y(s: Soldier) -> int {
    let base: int = if s.position == POS_STAND {
        8 * FX_ONE
    } else if s.position == POS_CROUCH {
        9 * FX_ONE
    } else if s.position == POS_PRONE {
        if s.body_animation.id == Anim::ProneMove {
            0
        } else if s.body_animation.id == Anim::Prone {
            if s.body_animation.frame > 9 {
                -2 * FX_ONE
            } else {
                (14 - s.body_animation.frame) * FX_ONE
            }
        } else {
            9 * FX_ONE
        }
    } else {
        0
    };
    if s.body_animation.id == Anim::GetUp {
        if s.body_animation.frame > 18 {
            8 * FX_ONE
        } else {
            4 * FX_ONE
        }
    } else {
        base
    }
}

/// A clip offset's x component mirrored by the facing.
pub open spec fn facing_x(dirpos: bool, off: Vec2) -> int {
    if dirpos {
        off.x as int
    } else {
        -off.x as int
    }
}

/// Pose placement of leg-group joint `i`: the center plus the facing-mirrored
/// legs-clip offset.
pub open spec fn pose_leg_x(s: Soldier, pp: Vec2, dirpos: bool, i: int) -> int {
    pp.x + facing_x(dirpos, s.legs_animation.pos_spec(i))
}

pub open spec fn pose_leg_y(s: Soldier, pp: Vec2, i: int) -> int {
    pp.y + s.legs_animation.pos_spec(i).y as int
}

/// The reference joint's y after the leg pass: freshly placed when the living
/// soldier's joint 6 is active, otherwise as it was.
pub open spec fn pose_ref_y(s: Soldier, pp: Vec2) -> int {
    if s.lifecycle == Lifecycle::Alive && s.skeleton.active@[6] {
        pose_leg_y(s, pp, 6)
    } else {
        s.skeleton.pos@[6].y as int
    }
}

/// Pose placement of body-group joint `i`.
pub open spec fn pose_body_x(s: Soldier, pp: Vec2, dirpos: bool, i: int) -> int {
    pp.x + facing_x(dirpos, s.body_animation.pos_spec(i))
}

pub open spec fn pose_body_y(s: Soldier, pp: Vec2, i: int) -> int {
    if s.lifecycle == Lifecycle::Alive {
        (pose_ref_y(s, pp) - (pp.y - stance_body_y(s))) + pp.y + s.body_animation.pos_spec(i).y
    } else {
        9 * FX_ONE + pp.y + s.body_animation.pos_spec(i).y
    }
}

impl Soldier {
    /// The pose-synthesis half of a tick: carry the body's motion into the
    /// helper joints, recompute the facing from the aim, place every
    /// animation-driven joint from the clips and the stance offset, and
    /// override the aiming joints from the aim vector.
    #[verifier::rlimit(100)]
    fn synthesize_pose(&mut self, state: &MainState)
        requires
            old(self).wf(),
            state.wf(),
            old(self).num < state.soldier_parts.pos@.len(),
            in_box(state.soldier_parts.pos@[old(self).num as int], WORLD_BOX as int),
            in_box(state.soldier_parts.velocity@[old(self).num as int], 300_000),
            iabs(old(self).control.mouse_aim_x as int) <= WORLD_BOX,
            iabs(old(self).control.mouse_aim_y as int) <= WORLD_BOX,
            skel_pos_boxed(old(self).skeleton, WORLD_BOX as int),
            skel_old_boxed(old(self).skeleton, WORLD_BOX as int),
        ensures
            final(self).wf(),
            *final(self) == (Soldier {
                skeleton: final(self).skeleton,
                direction: final(self).direction,
                ..*old(self)
            }),
            final(self).direction == (if old(self).control.mouse_aim_x
                >= state.soldier_parts.pos@[old(self).num as int].x {
                1
            } else {
                -1
            }),
            final(self).skeleton.pos@.len() == old(self).skeleton.pos@.len(),
            final(self).skeleton.active@ == old(self).skeleton.active@,
            final(self).skeleton.gravity == old(self).skeleton.gravity,
            final(self).skeleton.v_damping == old(self).skeleton.v_damping,
            skel_pos_boxed(final(self).skeleton, 105_000_000),
            skel_old_boxed(final(self).skeleton, 105_000_000),
            ({
                let pp = state.soldier_parts.pos@[old(self).num as int];
                let dirpos = old(self).control.mouse_aim_x >= pp.x;
                &&& forall|i: int|
                    1 <= i < 21 && old(self).skeleton.active@[i] && old(self).lifecycle
                        == Lifecycle::Alive && (i <= 6 || i == 17 || i == 18)
                        ==> #[trigger] final(self).skeleton.pos@[i].x == pose_leg_x(
                        *old(self),
                        pp,
                        dirpos,
                        i,
                    ) && final(self).skeleton.pos@[i].y == pose_leg_y(*old(self), pp, i)
                &&& forall|i: int|
                    7 <= i < 21 && old(self).skeleton.active@[i] && old(self).lifecycle
                        != Lifecycle::Dead && (i <= 16 || i == 19 || i == 20) && i != 12 && (
                    not_aiming(old(self).body_animation.id) || (i != 15 && i != 19))
                        ==> #[trigger] final(self).skeleton.pos@[i].x == pose_body_x(
                        *old(self),
                        pp,
                        dirpos,
                        i,
                    ) && final(self).skeleton.pos@[i].y == pose_body_y(*old(self), pp, i)
                &&& forall|i: int|
                    1 <= i < 21 && old(self).skeleton.active@[i] && old(self).lifecycle
                        != Lifecycle::Dead ==> #[trigger] final(self).skeleton.old_pos@[i] == old(self).skeleton.pos@[i]
            }),
    {
        let num: usize = self.num;
        let p21: Vec2 = self.skeleton.pos[21];
        let p23: Vec2 = self.skeleton.pos[23];
        let p25: Vec2 = self.skeleton.pos[25];
        self.skeleton.old_pos[21] = p21;
        self.skeleton.old_pos[23] = p23;
        self.skeleton.old_pos[25] = p25;
        let p9: Vec2 = self.skeleton.pos[9];
        let p12a: Vec2 = self.skeleton.pos[12];
        let p5: Vec2 = self.skeleton.pos[5];
        self.skeleton.pos[21] = p9;
        self.skeleton.pos[23] = p12a;
        self.skeleton.pos[25] = p5;

        if self.lifecycle != Lifecycle::Dead {
            let v: Vec2 = state.soldier_parts.velocity[num];
            let a21: Vec2 = self.skeleton.pos[21];
            self.skeleton.pos[21] = vec2(a21.x + v.x, a21.y + v.y);
            let a23: Vec2 = self.skeleton.pos[23];
            self.skeleton.pos[23] = vec2(a23.x + v.x, a23.y + v.y);
            let a25: Vec2 = self.skeleton.pos[25];
            self.skeleton.pos[25] = vec2(a25.x + v.x, a25.y + v.y);
        }

        let mut body_y: i64 = 0;
        if self.position == POS_STAND {
            body_y = 8 * FX_ONE;
        } else if self.position == POS_CROUCH {
            body_y = 9 * FX_ONE;
        } else if self.position == POS_PRONE {
            if self.body_animation.id == Anim::Prone {
                if self.body_animation.frame > 9 {
                    body_y = -2 * FX_ONE;
                } else {
                    body_y = (14 - self.body_animation.frame as i64) * FX_ONE;
                }
            } else {
                body_y = 9 * FX_ONE;
            }
            if self.body_animation.id == Anim::ProneMove {
                body_y = 0;
            }
        }
        if self.body_animation.id == Anim::GetUp {
            if self.body_animation.frame > 18 {
                body_y = 8 * FX_ONE;
            } else {
                body_y = 4 * FX_ONE;
            }
        }

        if self.control.mouse_aim_x >= state.soldier_parts.pos[num].x {
            self.direction = 1;
        } else {
            self.direction = -1;
        }

        let mut i: usize = 1;
        while i < 21
            invariant
                old(self).wf(),
                state.wf(),
                                num == old(self).num < state.soldier_parts.pos@.len(),
                in_box(state.soldier_parts.pos@[num as int], WORLD_BOX as int),
                in_box(state.soldier_parts.velocity@[num as int], 300_000),
                *self == (Soldier {
                    skeleton: self.skeleton,
                    direction: self.direction,
                    ..*old(self)
                }),
                self.wf(),
                self.num == num,
                self.lifecycle == old(self).lifecycle,
                self.control == old(self).control,
                self.legs_animation == old(self).legs_animation,
                self.body_animation == old(self).body_animation,
                self.direction == (if old(self).control.mouse_aim_x >= state.soldier_parts.pos@[num as int].x {
                    1int
                } else {
                    -1int
                }),
                self.skeleton.pos@.len() == old(self).skeleton.pos@.len(),
                self.skeleton.active@ == old(self).skeleton.active@,
                self.skeleton.gravity == old(self).skeleton.gravity,
                self.skeleton.v_damping == old(self).skeleton.v_damping,
                skel_pos_boxed(self.skeleton, 103_000_000),
                skel_old_boxed(self.skeleton, 103_000_000),
                in_box(self.skeleton.pos@[6], 101_500_000),
                iabs(body_y as int) <= 140_000,
                body_y as int == stance_body_y(*old(self)),
                forall|kk: int|
                    0 <= kk < 21 && !(1 <= kk < i && old(self).skeleton.active@[kk] && old(self).lifecycle != Lifecycle::Dead) ==> #[trigger] self.skeleton.pos@[kk] == old(self).skeleton.pos@[kk],
                forall|kk: int|
                    0 <= kk < 21 && !(1 <= kk < i && old(self).skeleton.active@[kk] && old(self).lifecycle != Lifecycle::Dead) ==> #[trigger] self.skeleton.old_pos@[kk] == old(self).skeleton.old_pos@[kk],
                forall|kk: int|
                    1 <= kk < i && old(self).skeleton.active@[kk] && old(self).lifecycle
                        != Lifecycle::Dead ==> #[trigger] self.skeleton.old_pos@[kk] == old(self).skeleton.pos@[kk],
                ({
                    let pp = state.soldier_parts.pos@[num as int];
                    let dirpos = old(self).control.mouse_aim_x >= pp.x;
                    &&& forall|kk: int|
                        1 <= kk < i && old(self).skeleton.active@[kk] && old(self).lifecycle
                            == Lifecycle::Alive && (kk <= 6 || kk == 17 || kk == 18)
                            ==> #[trigger] self.skeleton.pos@[kk].x == pose_leg_x(
                            *old(self),
                            pp,
                            dirpos,
                            kk,
                        ) && self.skeleton.pos@[kk].y == pose_leg_y(*old(self), pp, kk)
                    &&& forall|kk: int|
                        7 <= kk < i && old(self).skeleton.active@[kk] && old(self).lifecycle
                            != Lifecycle::Dead && (kk <= 16 || kk == 19 || kk == 20)
                            ==> #[trigger] self.skeleton.pos@[kk].x == pose_body_x(
                            *old(self),
                            pp,
                            dirpos,
                            kk,
                        ) && self.skeleton.pos@[kk].y == pose_body_y(*old(self), pp, kk)
                }),
                1 <= i <= 21,
            decreases 21 - i,
        {
            if self.skeleton.active[i] && self.lifecycle != Lifecycle::Dead {
                let cur: Vec2 = self.skeleton.pos[i];
                self.skeleton.old_pos[i] = cur;
                let pp: Vec2 = state.soldier_parts.pos[num];
                if self.lifecycle == Lifecycle::Alive && (i <= 6 || i == 17 || i == 18) {
                    let off: Vec2 = self.legs_animation.pos(i);
                    let ox: i64 = if self.direction == 1 {
                        off.x
                    } else {
                        -off.x
                    };
                    self.skeleton.pos[i] = vec2(pp.x + ox, pp.y + off.y);
                }
                if (7 <= i && i <= 16) || i == 19 || i == 20 {
                    let off: Vec2 = self.body_animation.pos(i);
                    let ox: i64 = if self.direction == 1 {
                        off.x
                    } else {
                        -off.x
                    };
                    let ny: i64 = if self.lifecycle == Lifecycle::Alive {
                        let p6: Vec2 = self.skeleton.pos[6];
                        (p6.y - (pp.y - body_y)) + pp.y + off.y
                    } else {
                        9 * FX_ONE + pp.y + off.y
                    };
                    self.skeleton.pos[i] = vec2(pp.x + ox, ny);
                }
            }
            i += 1;
        }

        self.apply_sight_override();
        self.apply_hand_overrides();

        proof {
            assert forall|ii: int|
                0 <= ii < self.skeleton.pos@.len() implies in_box(
                #[trigger] self.skeleton.pos@[ii],
                105_000_000,
            ) by {
                assert(self.skeleton.pos@[ii].x == self.skeleton.pos@[ii].x);
            }
        }
        proof {
            assert forall|ii: int|
                0 <= ii < self.skeleton.old_pos@.len() implies in_box(
                #[trigger] self.skeleton.old_pos@[ii],
                105_000_000,
            ) by {
                assert(self.skeleton.old_pos@[ii].x == self.skeleton.old_pos@[ii].x);
            }
        }
    }
}

impl Soldier {
    /// Track the aim with the sight joint and its distant helper: both are
    /// placed from the neck anchor along the aim direction rotated a quarter
    /// turn, mirrored by the facing.
    #[verifier::rlimit(100)]
    fn apply_sight_override(&mut self)
        requires
            old(self).wf(),
            iabs(old(self).control.mouse_aim_x as int) <= WORLD_BOX,
            iabs(old(self).control.mouse_aim_y as int) <= WORLD_BOX,
            skel_pos_boxed(old(self).skeleton, 103_000_000),
        ensures
            final(self).wf(),
            *final(self) == (Soldier { skeleton: final(self).skeleton, ..*old(self) }),
            final(self).skeleton.pos@.len() == old(self).skeleton.pos@.len(),
            final(self).skeleton.old_pos@ == old(self).skeleton.old_pos@,
            final(self).skeleton.active@ == old(self).skeleton.active@,
            final(self).skeleton.gravity == old(self).skeleton.gravity,
            final(self).skeleton.v_damping == old(self).skeleton.v_damping,
            forall|jj: int|
                0 <= jj < old(self).skeleton.pos@.len() && jj != 12 && jj != 23
                    ==> #[trigger] final(self).skeleton.pos@[jj] == old(self).skeleton.pos@[jj],
            skel_pos_boxed(final(self).skeleton, 104_000_000),
    {
        if self.lifecycle != Lifecycle::Dead {
            let p12: Vec2 = self.skeleton.pos[12];
            let aim: Vec2 = vec2(self.control.mouse_aim_x, self.control.mouse_aim_y);
            let mut r_norm: Vec2 = p12.minus(aim).normalized();
            proof {
                crate::fx::lemma_unit_scale_bound(r_norm.x as int, 1_000, 1_000);
                crate::fx::lemma_unit_scale_bound(r_norm.y as int, 1_000, 1_000);
            }
            r_norm = r_norm.scaled(1_000);
            let b9: Vec2 = self.skeleton.pos[9];
            let rx1: i64 = if self.direction == 1 {
                r_norm.y
            } else {
                -r_norm.y
            };
            let ry1: i64 = if self.direction == 1 {
                r_norm.x
            } else {
                -r_norm.x
            };
            self.skeleton.pos[12] = vec2(b9.x - rx1, b9.y + ry1);
            proof {
                crate::fx::lemma_unit_scale_bound(1_000, r_norm.x as int, 1_000);
            }
            let r50: Vec2 = r_norm.scaled(50 * FX_ONE);
            let rx2: i64 = if self.direction == 1 {
                r50.y
            } else {
                -r50.y
            };
            let ry2: i64 = if self.direction == 1 {
                r50.x
            } else {
                -r50.x
            };
            self.skeleton.pos[23] = vec2(b9.x - rx2, b9.y + ry2);
        }
        proof {
            assert forall|ii: int|
                0 <= ii < self.skeleton.pos@.len() implies in_box(
                #[trigger] self.skeleton.pos@[ii],
                104_000_000,
            ) by {
                assert(self.skeleton.pos@[ii].x == self.skeleton.pos@[ii].x);
            }
        }
    }

    /// Place the two hand joints from the aim vector, anchored at the
    /// shoulder joint, unless the body clip is one of the clips during which
    /// the soldier does not aim: those keep the pure animation placement.
    #[verifier::rlimit(100)]
    fn apply_hand_overrides(&mut self)
        requires
            old(self).wf(),
            iabs(old(self).control.mouse_aim_x as int) <= WORLD_BOX,
            iabs(old(self).control.mouse_aim_y as int) <= WORLD_BOX,
            skel_pos_boxed(old(self).skeleton, 104_000_000),
        ensures
            final(self).wf(),
            *final(self) == (Soldier { skeleton: final(self).skeleton, ..*old(self) }),
            final(self).skeleton.pos@.len() == old(self).skeleton.pos@.len(),
            final(self).skeleton.old_pos@ == old(self).skeleton.old_pos@,
            final(self).skeleton.active@ == old(self).skeleton.active@,
            final(self).skeleton.gravity == old(self).skeleton.gravity,
            final(self).skeleton.v_damping == old(self).skeleton.v_damping,
            skel_pos_boxed(final(self).skeleton, 105_000_000),
            not_aiming(old(self).body_animation.id) ==> final(self).skeleton.pos@ == old(self).skeleton.pos@,
            !not_aiming(old(self).body_animation.id) ==> ({
                let aimx = old(self).control.mouse_aim_x as int;
                let aimy = old(self).control.mouse_aim_y as int;
                let p15 = old(self).skeleton.pos@[15];
                let p19 = old(self).skeleton.pos@[19];
                let m16 = old(self).skeleton.pos@[16];
                let s15: int = if old(self).body_animation.id == Anim::Throw {
                    -5 * FX_ONE
                } else {
                    -7 * FX_ONE
                };
                let s19: int = if old(self).body_animation.id == Anim::Throw {
                    -6 * FX_ONE
                } else {
                    -8 * FX_ONE
                };
                &&& final(self).skeleton.pos@[15].x == m16.x + fmul_spec(
                    norm_xi(p15.x - aimx, p15.y - aimy),
                    s15,
                )
                &&& final(self).skeleton.pos@[15].y == m16.y + fmul_spec(
                    norm_yi(p15.x - aimx, p15.y - aimy),
                    s15,
                )
                &&& final(self).skeleton.pos@[19].x == m16.x + fmul_spec(
                    norm_xi(p19.x - aimx, p19.y - aimy),
                    s19,
                )
                &&& final(self).skeleton.pos@[19].y == m16.y - 4 * FX_ONE + fmul_spec(
                    norm_yi(p19.x - aimx, p19.y - aimy),
                    s19,
                )
                &&& forall|jj: int|
                    0 <= jj < old(self).skeleton.pos@.len() && jj != 15 && jj != 19
                        ==> #[trigger] final(self).skeleton.pos@[jj] == old(self).skeleton.pos@[jj]
            }),
    {
        let mut not_aiming_anims: Vec<Anim> = Vec::new();
        not_aiming_anims.push(Anim::Reload);
        not_aiming_anims.push(Anim::ReloadBow);
        not_aiming_anims.push(Anim::ClipIn);
        not_aiming_anims.push(Anim::ClipOut);
        not_aiming_anims.push(Anim::SlideBack);
        not_aiming_anims.push(Anim::Change);
        not_aiming_anims.push(Anim::ThrowWeapon);
        not_aiming_anims.push(Anim::Punch);
        not_aiming_anims.push(Anim::Roll);
        not_aiming_anims.push(Anim::RollBack);
        not_aiming_anims.push(Anim::Cigar);
        not_aiming_anims.push(Anim::Match);
        not_aiming_anims.push(Anim::Smoke);
        not_aiming_anims.push(Anim::Wipe);
        not_aiming_anims.push(Anim::TakeOff);
        not_aiming_anims.push(Anim::Groin);
        not_aiming_anims.push(Anim::Piss);
        not_aiming_anims.push(Anim::Mercy);
        not_aiming_anims.push(Anim::Mercy2);
        not_aiming_anims.push(Anim::Victory);
        not_aiming_anims.push(Anim::Own);
        not_aiming_anims.push(Anim::Melee);
        proof {
            assert(not_aiming_anims@ =~= not_aiming_set());
        }

        let mut arm_s: i64 = if self.body_animation.id == Anim::Throw {
            -5 * FX_ONE
        } else {
            -7 * FX_ONE
        };
        if !self.body_animation.is_any(not_aiming_anims.as_slice()) {
            let p15: Vec2 = self.skeleton.pos[15];
            let aim: Vec2 = vec2(self.control.mouse_aim_x, self.control.mouse_aim_y);
            let un: Vec2 = p15.minus(aim).normalized();
            proof {
                crate::fx::lemma_unit_scale_bound(un.x as int, arm_s as int, 80_000);
                crate::fx::lemma_unit_scale_bound(un.y as int, arm_s as int, 80_000);
            }
            let r_norm: Vec2 = un.scaled(arm_s);
            let m16: Vec2 = self.skeleton.pos[16];
            self.skeleton.pos[15] = vec2(m16.x + r_norm.x, m16.y + r_norm.y);
        }

        arm_s = if self.body_animation.id == Anim::Throw {
            -6 * FX_ONE
        } else {
            -8 * FX_ONE
        };
        if !self.body_animation.is_any(not_aiming_anims.as_slice()) {
            let p19: Vec2 = self.skeleton.pos[19];
            let aim: Vec2 = vec2(self.control.mouse_aim_x, self.control.mouse_aim_y);
            let un: Vec2 = p19.minus(aim).normalized();
            proof {
                crate::fx::lemma_unit_scale_bound(un.x as int, arm_s as int, 80_000);
                crate::fx::lemma_unit_scale_bound(un.y as int, arm_s as int, 80_000);
            }
            let r_norm: Vec2 = un.scaled(arm_s);
            let m16: Vec2 = self.skeleton.pos[16];
            self.skeleton.pos[19] = vec2(m16.x + r_norm.x, m16.y - 4 * FX_ONE + r_norm.y);
        }
        proof {
            assert forall|ii: int|
                0 <= ii < self.skeleton.pos@.len() implies in_box(
                #[trigger] self.skeleton.pos@[ii],
                105_000_000,
            ) by {
                assert(self.skeleton.pos@[ii].x == self.skeleton.pos@[ii].x);
            }
        }
    }
}

} // verus!

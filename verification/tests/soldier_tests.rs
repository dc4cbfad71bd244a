use soldier_core::anims::{Anim, AnimFrame, AnimState};
use soldier_core::control::{KeyCode, KeyState, KeyboardInput, MouseButton};
use soldier_core::fx::{clamp_fx, fmul, isqrt, round_div, tdiv, FX_ONE};
use soldier_core::mapfile::{MapIndex, PolyType, Polygon};
use soldier_core::parts::ParticleStore;
use soldier_core::soldier::{Lifecycle, Soldier, MAX_VELOCITY};
use soldier_core::state::MainState;
use soldier_core::vec2::{point_line_distance, vec2, Vec2};
use soldier_core::weapons::WeaponKind;

fn v(x: i64, y: i64) -> Vec2 {
    Vec2 { x, y }
}

/// A wide, flat-topped triangle whose surface lies at world y = 2; the top
/// edge's cached normal points down into the interior, so a correction that
/// subtracts it pushes the soldier back up out of the ground.
fn flat_poly(polytype: PolyType, bounciness: i64) -> Polygon {
    Polygon::new(v(-990_000, 20_000), v(990_000, 20_000), v(0, 900_000), polytype, bounciness)
}

fn grid(ids: Vec<usize>) -> Vec<Vec<Vec<usize>>> {
    let mut rows: Vec<Vec<Vec<usize>>> = Vec::new();
    for _ in 0..28 {
        let mut row: Vec<Vec<usize>> = Vec::new();
        for _ in 0..28 {
            row.push(ids.clone());
        }
        rows.push(row);
    }
    rows
}

fn make_state(polys: Vec<Polygon>, fill: bool) -> MainState {
    let ids: Vec<usize> = if fill && !polys.is_empty() { vec![1] } else { vec![] };
    MainState {
        map: MapIndex {
            polygons: polys,
            sectors_division: 100,
            sectors_num: 2,
            sectors_poly: grid(ids),
            spawnpoints: vec![v(0, 0)],
            start_jet: 100,
        },
        soldier_parts: ParticleStore::new(2),
    }
}

#[test]
fn fixed_point_ops() {
    assert_eq!(isqrt(0), 0);
    assert_eq!(isqrt(15), 3);
    assert_eq!(isqrt(16), 4);
    assert_eq!(isqrt(4_000_000_000_000_000_000), 2_000_000_000);
    assert_eq!(tdiv(7, 2), 3);
    assert_eq!(tdiv(-7, 2), -3);
    assert_eq!(fmul(15_000, 20_000), 30_000);
    assert_eq!(fmul(-15_000, 20_000), -30_000);
    assert_eq!(round_div(5, 10), 1);
    assert_eq!(round_div(-5, 10), -1);
    assert_eq!(round_div(4, 10), 0);
    assert_eq!(clamp_fx(200_000, MAX_VELOCITY), 110_000);
    assert_eq!(clamp_fx(-200_000, MAX_VELOCITY), -110_000);
    assert_eq!(clamp_fx(5, MAX_VELOCITY), 5);
}

#[test]
fn vector_ops() {
    assert_eq!(v(30_000, 40_000).length(), 50_000);
    let n = v(30_000, 40_000).normalized();
    assert_eq!(n, v(6_000, 8_000));
    assert_eq!(v(0, 0).normalized(), v(0, 0));
    assert_eq!(v(10_000, 0).dist_to(v(10_000, 70_000)), 70_000);
    // distance from (0.5, 0.7) to the x axis segment's line is 0.7
    assert_eq!(point_line_distance(v(0, 0), v(10_000, 0), v(5_000, 7_000)), 7_000);
}

#[test]
fn map_queries() {
    let st = make_state(vec![flat_poly(PolyType::Normal, 0)], true);
    let p = flat_poly(PolyType::Normal, 0);
    // strictly inside, on the surface, and above it
    assert!(st.map.point_in_poly(v(0, 50_000), &p));
    assert!(!st.map.point_in_poly(v(0, 20_000), &p));
    assert!(!st.map.point_in_poly(v(0, -50_000), &p));
    assert!(st.map.point_in_poly_edges(0, 20_000, 0));
    assert!(!st.map.point_in_poly_edges(0, -50_000, 0));
    // the top edge is the nearest one to a point just under the surface
    let (perp, dist, edge) = st.map.closest_perpendicular(0, v(0, 50_000));
    assert_eq!(perp, v(0, 10_000));
    assert_eq!(dist, 30_000);
    assert_eq!(edge, 1);
}

#[test]
fn animation_frames_advance() {
    let mut frames: Vec<AnimFrame> = Vec::new();
    for k in 0..3 {
        let mut positions: Vec<Vec2> = Vec::new();
        for _ in 0..21 {
            positions.push(v(k * 100, k * 200));
        }
        frames.push(AnimFrame { positions });
    }
    let mut looped = AnimState::with_frames(Anim::Crouch, frames.clone(), 1, true);
    assert_eq!(looped.frame, 1);
    assert_eq!(looped.pos(5), v(0, 0));
    looped.do_animation();
    assert_eq!(looped.frame, 2);
    assert_eq!(looped.pos(5), v(100, 200));
    looped.do_animation();
    assert_eq!(looped.frame, 3);
    looped.do_animation();
    assert_eq!(looped.frame, 1);

    let mut held = AnimState::with_frames(Anim::Stand, frames, 2, false);
    held.do_animation();
    assert_eq!(held.frame, 1);
    held.do_animation();
    assert_eq!(held.frame, 2);
    held.do_animation();
    held.do_animation();
    assert_eq!(held.frame, 3);
    held.do_animation();
    held.do_animation();
    assert_eq!(held.frame, 3);

    assert!(held.is_any(&[Anim::Prone, Anim::Stand]));
    assert!(!held.is_any(&[Anim::Prone, Anim::ProneMove]));
}

#[test]
fn keys_and_mouse_set_intent() {
    let mut st = make_state(vec![], false);
    let mut s = Soldier::new(&mut st);
    s.update_keys(&KeyboardInput {
        state: KeyState::Pressed,
        virtual_keycode: Some(KeyCode::A),
    });
    assert!(s.control.left);
    s.update_keys(&KeyboardInput {
        state: KeyState::Released,
        virtual_keycode: Some(KeyCode::A),
    });
    assert!(!s.control.left);
    s.update_keys(&KeyboardInput {
        state: KeyState::Pressed,
        virtual_keycode: Some(KeyCode::X),
    });
    assert!(s.control.prone);
    s.update_keys(&KeyboardInput { state: KeyState::Pressed, virtual_keycode: None });
    s.update_mouse_button(&(KeyState::Pressed, MouseButton::Left));
    assert!(s.control.fire);
    s.update_mouse_button(&(KeyState::Pressed, MouseButton::Right));
    assert!(s.control.jets);
    s.update_mouse_button(&(KeyState::Released, MouseButton::Left));
    assert!(!s.control.fire);
}

#[test]
fn weapon_slots_and_switch() {
    let mut st = make_state(vec![], false);
    let mut s = Soldier::new(&mut st);
    assert_eq!(s.primary_weapon().kind, WeaponKind::DesertEagles);
    assert_eq!(s.secondary_weapon().kind, WeaponKind::Chainsaw);
    assert_eq!(s.tertiary_weapon().kind, WeaponKind::FragGrenade);
    s.weapons[1].start_up_time = 33;
    s.weapons[1].reload_time_count = 17;
    s.switch_weapon();
    assert_eq!(s.active_weapon, 1);
    assert_eq!(s.primary_weapon().kind, WeaponKind::Chainsaw);
    assert_eq!(s.weapons[1].start_up_time_count, 33);
    assert_eq!(s.weapons[1].reload_time_prev, 17);
    s.switch_weapon();
    assert_eq!(s.active_weapon, 0);
}

/// Soldier just above a flat "stand" polygon with downward velocity 1.0:
/// after one tick it stands on the ground and the velocity is damped to zero.
#[test]
fn rests_on_stand_polygon() {
    let mut st = make_state(vec![flat_poly(PolyType::Normal, 0)], true);
    let mut s = Soldier::new(&mut st);
    st.soldier_parts.velocity[1] = v(0, 10_000);
    s.update(&mut st);
    assert!(s.on_ground);
    assert_eq!(st.soldier_parts.velocity[1], v(0, 0));
    assert_eq!(st.soldier_parts.pos[1], v(0, 0));
    assert!(s.on_ground_last_frame);
}

/// A bouncy polygon with restitution 0.5 under downward velocity 5.0 leaves
/// a rebound of magnitude 0.5 * 5.0 along the cached normal, not zero.
#[test]
fn bouncy_polygon_restitution() {
    let mut st = make_state(vec![flat_poly(PolyType::Bouncy, 5_000)], true);
    let mut s = Soldier::new(&mut st);
    st.soldier_parts.velocity[1] = v(0, 50_000);
    let hit = s.check_map_collision(&mut st, 0, 0, 0);
    assert!(hit);
    assert_eq!(st.soldier_parts.velocity[1], v(0, 25_000));
    assert_eq!(st.soldier_parts.pos[1], v(0, 0));
    assert_eq!(st.soldier_parts.forces[1], v(0, -600));
}

/// A deadly polygon teleports the particle back to the spawn point.
#[test]
fn deadly_polygon_respawns() {
    let mut st = make_state(vec![flat_poly(PolyType::Deadly, 0)], true);
    let mut s = Soldier::new(&mut st);
    st.soldier_parts.pos[1] = v(40_000, 0);
    st.soldier_parts.old_pos[1] = v(40_000, 0);
    st.soldier_parts.velocity[1] = v(0, 50_000);
    let hit = s.check_map_collision(&mut st, 40_000, 0, 0);
    assert!(hit);
    // the correction starts over from the spawn point's x
    assert_eq!(st.soldier_parts.pos[1].x, 0);
}

/// One dead tick: the center of mass is overwritten from the head joint's
/// post-integration position, not kept.
#[test]
fn dead_soldier_follows_head_joint() {
    let mut st = make_state(vec![], false);
    let mut s = Soldier::new(&mut st);
    s.lifecycle = Lifecycle::Dead;
    s.on_ground_permanent = true;
    s.on_ground_last_frame = true;
    s.jets_count = 7;
    s.skeleton.pos[12] = v(30_000, 40_000);
    s.skeleton.old_pos[12] = v(30_000, 40_000);
    s.update(&mut st);
    // gravity (0.0636 per tick) pulled the head down one step
    assert_eq!(s.skeleton.pos[12], v(30_000, 40_636));
    assert_eq!(st.soldier_parts.pos[1], v(30_000, 40_636));
    // dead ticks leave the ground hysteresis and the fuel untouched
    assert!(s.on_ground_permanent);
    assert!(s.on_ground_last_frame);
    assert_eq!(s.jets_count, 7);
}

/// While the body clip is "Reload" (a non-aiming clip) the aiming joints keep
/// their pure animation placement; under an aiming clip they are overridden.
#[test]
fn reload_skips_aim_override() {
    let mut st = make_state(vec![], false);
    let mut s = Soldier::new(&mut st);
    s.control.mouse_aim_x = 100_000;
    s.body_apply_animation(AnimState::new(Anim::Reload), 1);
    s.update(&mut st);
    assert_eq!(s.skeleton.pos[15], v(0, 0));
    assert_eq!(s.skeleton.pos[19], v(0, 0));

    let mut st2 = make_state(vec![], false);
    let mut s2 = Soldier::new(&mut st2);
    s2.control.mouse_aim_x = 100_000;
    s2.update(&mut st2);
    assert_eq!(s2.skeleton.pos[15], v(70_000, 0));
    assert_ne!(s2.skeleton.pos[19], v(0, 0));
}

/// The per-axis velocity cap holds after a free-fall tick.
#[test]
fn velocity_clamped_each_tick() {
    let mut st = make_state(vec![], false);
    let mut s = Soldier::new(&mut st);
    st.soldier_parts.velocity[1] = v(250_000, -250_000);
    s.update(&mut st);
    assert_eq!(st.soldier_parts.velocity[1], v(110_000, -110_000));
}

/// Facing follows the aim's side of the soldier, instantly.
#[test]
fn direction_follows_aim() {
    let mut st = make_state(vec![], false);
    let mut s = Soldier::new(&mut st);
    s.control.mouse_aim_x = -50_000;
    s.update(&mut st);
    assert_eq!(s.direction, -1);
    s.control.mouse_aim_x = 50_000;
    s.update(&mut st);
    assert_eq!(s.direction, 1);
}

/// The permanent ground flag follows the raw flag only across a
/// transition-free tick pair.
#[test]
fn ground_hysteresis() {
    let mut st = make_state(vec![], false);
    let mut s = Soldier::new(&mut st);
    s.on_ground_last_frame = true;
    s.on_ground_permanent = true;
    s.update(&mut st);
    // airborne now, grounded last tick: the flip leaves the stable flag alone
    assert!(!s.on_ground);
    assert!(s.on_ground_permanent);
    assert!(!s.on_ground_last_frame);
    s.update(&mut st);
    // two airborne ticks in a row: the stable flag follows
    assert!(!s.on_ground_permanent);
}

/// Jet fuel regenerates only below the map cap and while jets are not held.
#[test]
fn jet_fuel_regenerates() {
    let mut st = make_state(vec![], false);
    let mut s = Soldier::new(&mut st);
    s.update(&mut st);
    assert_eq!(s.jets_count, 1);
    s.control.jets = true;
    s.update(&mut st);
    assert_eq!(s.jets_count, 1);
    s.control.jets = false;
    s.jets_count = 100;
    s.update(&mut st);
    assert_eq!(s.jets_count, 100);
}

/// A corner probe snaps the soldier one unit straight away from the vertex.
#[test]
fn vertex_probe_snaps_away() {
    let poly = Polygon::new(
        v(10_000, 0),
        v(990_000, 20_000),
        v(0, 900_000),
        PolyType::Normal,
        0,
    );
    let mut st = make_state(vec![poly], true);
    let mut s = Soldier::new(&mut st);
    let hit = s.check_map_vertices_collision(&mut st, 0, 0, 30_000, false);
    assert!(hit);
    assert_eq!(st.soldier_parts.pos[1], v(-10_000, 0));
}

/// A ragdoll joint inside a polygon is pushed back out from its previous
/// position along the nearest edge's normal.
#[test]
fn skeleton_probe_corrects_joint() {
    let mut st = make_state(vec![flat_poly(PolyType::Normal, 0)], true);
    let mut s = Soldier::new(&mut st);
    s.skeleton.old_pos[5] = v(0, -20_000);
    let hit = s.check_skeleton_map_collision(&mut st, 5, 0, 0);
    assert!(hit);
    assert_eq!(s.skeleton.pos[5], v(0, -40_000));
}

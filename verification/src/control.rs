//! The per-tick input snapshot the soldier reads, and the plain key and
//! mouse events that a windowing front end translates into it.

use vstd::prelude::*;

verus! {

/// Whether a key or button went down or up.
#[derive(Clone, Copy, PartialEq, Eq, Structural, Debug)]
pub enum KeyState {
    Pressed,
    Released,
}

/// The keys the soldier cares about; everything else is `Other`.
#[derive(Clone, Copy, PartialEq, Eq, Structural, Debug)]
pub enum KeyCode {
    A,
    D,
    W,
    S,
    Q,
    E,
    X,
    Other,
}

/// Mouse buttons the soldier cares about.
#[derive(Clone, Copy, PartialEq, Eq, Structural, Debug)]
pub enum MouseButton {
    Left,
    Right,
    Other,
}

/// One keyboard event: a transition and, when known, which key made it.
#[derive(Clone, Copy, Debug)]
pub struct KeyboardInput {
    pub state: KeyState,
    pub virtual_keycode: Option<KeyCode>,
}

/// Intent flags plus the aim point, in fixed-point world coordinates.
#[derive(Clone, Copy, PartialEq, Eq, Structural, Debug)]
pub struct Control {
    pub left: bool,
    pub right: bool,
    pub up: bool,
    pub down: bool,
    pub fire: bool,
    pub jets: bool,
    pub change: bool,
    pub throw: bool,
    pub prone: bool,
    pub mouse_aim_x: i64,
    pub mouse_aim_y: i64,
}

/// The all-clear snapshot: no intent, aim at the origin.
pub open spec fn control_idle() -> Control {
    Control {
        left: false,
        right: false,
        up: false,
        down: false,
        fire: false,
        jets: false,
        change: false,
        throw: false,
        prone: false,
        mouse_aim_x: 0,
        mouse_aim_y: 0,
    }
}

impl Default for Control {
    /// The all-clear snapshot.
    fn default() -> (r: Control)
        ensures
            r == control_idle(),
    {
        Control {
            left: false,
            right: false,
            up: false,
            down: false,
            fire: false,
            jets: false,
            change: false,
            throw: false,
            prone: false,
            mouse_aim_x: 0,
            mouse_aim_y: 0,
        }
    }
}

} // verus!

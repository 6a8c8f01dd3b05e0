//! Key and button bindings and sensitivities of a rig.

use crate::fixed::{affine, clamp, product};
use vstd::prelude::*;

verus! {

/// A sensitivity that grows with the height of the rig: `slope * height +
/// offset`, so that panning is faster when zoomed out.
#[derive(Clone, Copy, Debug, PartialEq, Eq, Structural)]
pub struct Affine {
    pub slope: i64,
    pub offset: i64,
}

impl Affine {
    /// The sensitivity at the given height, in saturating fixed point.
    pub open spec fn value_at(self, height: i64) -> i64 {
        clamp(clamp(product(self.slope as int, height as int)) + self.offset) as i64
    }

    /// The sensitivity at the given height.
    pub fn at(&self, height: i64) -> (r: i64)
        ensures
            r == self.value_at(height),
    {
        affine(self.slope, height, self.offset)
    }
}

/// A key of the keyboard. The keys of the default bindings are named; the
/// host numbers the others as it likes.
#[derive(Clone, Copy, Debug, PartialEq, Eq, Structural)]
pub enum KeyCode {
    W,
    A,
    S,
    D,
    Q,
    E,
    Up,
    Down,
    Left,
    Right,
    Other(u32),
}

/// A button of the mouse.
#[derive(Clone, Copy, Debug, PartialEq, Eq, Structural)]
pub enum MouseButton {
    Left,
    Right,
    Middle,
    Other(u16),
}

/// Keyboard bindings of a rig. Each direction is bound to a list of keys, any
/// of which triggers it while held.
#[derive(Debug)]
pub struct KeyboardConf {
    pub forward: Vec<KeyCode>,
    pub backward: Vec<KeyCode>,
    pub left: Vec<KeyCode>,
    pub right: Vec<KeyCode>,
    /// The distance moved per frame while a direction key is held.
    pub move_sensitivity: Affine,
    pub clockwise: Vec<KeyCode>,
    pub counter_clockwise: Vec<KeyCode>,
    /// The angle turned per frame while a rotation key is held.
    pub rotate_sensitivity: i64,
}

impl KeyboardConf {
    /// Whether these are the default bindings: W, S, A, D or the arrow keys
    /// to move, Q and E to turn.
    pub open spec fn is_default(self) -> bool {
        &&& self.forward@ =~= seq![KeyCode::W, KeyCode::Up]
        &&& self.backward@ =~= seq![KeyCode::S, KeyCode::Down]
        &&& self.left@ =~= seq![KeyCode::A, KeyCode::Left]
        &&& self.right@ =~= seq![KeyCode::D, KeyCode::Right]
        &&& self.move_sensitivity == (Affine { slope: 2_000_000, offset: 100_000 })
        &&& self.clockwise@ =~= seq![KeyCode::Q]
        &&& self.counter_clockwise@ =~= seq![KeyCode::E]
        &&& self.rotate_sensitivity == 31_416
    }
}

impl Default for KeyboardConf {
    fn default() -> (conf: Self)
        ensures
            conf.is_default(),
    {
        KeyboardConf {
            forward: vec![KeyCode::W, KeyCode::Up],
            backward: vec![KeyCode::S, KeyCode::Down],
            left: vec![KeyCode::A, KeyCode::Left],
            right: vec![KeyCode::D, KeyCode::Right],
            move_sensitivity: Affine { slope: 2_000_000, offset: 100_000 },
            clockwise: vec![KeyCode::Q],
            counter_clockwise: vec![KeyCode::E],
            rotate_sensitivity: 31_416,
        }
    }
}

/// Mouse bindings of a rig.
#[derive(Clone, Copy, Debug, PartialEq, Eq, Structural)]
pub struct MouseConf {
    pub rotate: MouseButton,
    /// The angle turned per unit of pointer motion.
    pub rotate_sensitivity: i64,
    pub drag: MouseButton,
    /// The distance dragged per unit of pointer motion.
    pub drag_sensitivity: Affine,
    /// The distance zoomed per unit of scroll.
    pub zoom_sensitivity: i64,
}

impl MouseConf {
    /// Whether these are the default bindings: the right button to rotate,
    /// the left one to drag.
    pub open spec fn is_default(self) -> bool {
        self == (MouseConf {
            rotate: MouseButton::Right,
            rotate_sensitivity: 3_142,
            drag: MouseButton::Left,
            drag_sensitivity: Affine { slope: 1_000_000, offset: 3_142 },
            zoom_sensitivity: 5_000_000,
        })
    }
}

impl Default for MouseConf {
    fn default() -> (conf: Self)
        ensures
            conf.is_default(),
    {
        MouseConf {
            rotate: MouseButton::Right,
            rotate_sensitivity: 3_142,
            drag: MouseButton::Left,
            drag_sensitivity: Affine { slope: 1_000_000, offset: 3_142 },
            zoom_sensitivity: 5_000_000,
        }
    }
}

} // verus!

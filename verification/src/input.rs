//! The input of one frame.

use crate::config::{KeyCode, KeyboardConf, MouseButton, MouseConf};
use crate::events::{EventCursor, EventQueue};
use crate::fixed::{clamp, saturate};
use vstd::prelude::*;

verus! {

/// The pointer moved.
#[derive(Clone, Copy, Debug, PartialEq, Eq, Structural)]
pub struct MouseMotion {
    pub delta_x: i64,
    pub delta_y: i64,
}

/// The wheel turned. A positive `y` scrolls in.
#[derive(Clone, Copy, Debug, PartialEq, Eq, Structural)]
pub struct MouseWheel {
    pub y: i64,
}

/// The cursors with which a rig reads the two mouse queues.
#[derive(Clone, Copy, Debug, PartialEq, Eq, Structural)]
pub struct MouseEventReader {
    pub motion: EventCursor,
    pub wheel: EventCursor,
}

impl Default for MouseEventReader {
    /// The reader of a rig that has read nothing.
    fn default() -> (reader: Self)
        ensures
            reader.motion.position == 0,
            reader.wheel.position == 0,
    {
        MouseEventReader {
            motion: EventCursor { position: 0 },
            wheel: EventCursor { position: 0 },
        }
    }
}

/// The exact sum of the horizontal motion of `events`.
pub open spec fn total_x(events: Seq<MouseMotion>) -> int
    decreases events.len(),
{
    if events.len() == 0 {
        0
    } else {
        total_x(events.drop_last()) + events.last().delta_x
    }
}

/// The exact sum of the vertical motion of `events`.
pub open spec fn total_y(events: Seq<MouseMotion>) -> int
    decreases events.len(),
{
    if events.len() == 0 {
        0
    } else {
        total_y(events.drop_last()) + events.last().delta_y
    }
}

/// The exact sum of the scroll of `events`.
pub open spec fn total_scroll(events: Seq<MouseWheel>) -> int
    decreases events.len(),
{
    if events.len() == 0 {
        0
    } else {
        total_scroll(events.drop_last()) + events.last().y
    }
}

/// Whether one of the keys in `bound` is among those in `held`.
pub open spec fn any_held(bound: Seq<KeyCode>, held: Seq<KeyCode>) -> bool {
    exists|i: int| 0 <= i < bound.len() && held.contains(#[trigger] bound[i])
}

/// What the keyboard and the mouse did since the previous frame.
#[derive(Clone, Copy, Debug, PartialEq, Eq, Structural)]
pub struct InputSnapshot {
    /// A key bound to the direction is held.
    pub forward: bool,
    pub backward: bool,
    pub left: bool,
    pub right: bool,
    pub clockwise: bool,
    pub counter_clockwise: bool,
    /// The mouse button bound to rotation is held.
    pub rotate: bool,
    /// The mouse button bound to dragging is held.
    pub drag: bool,
    /// At least one pointer-motion event arrived.
    pub pointer_moved: bool,
    /// The pointer motion summed over all events.
    pub motion_x: i64,
    pub motion_y: i64,
    /// The vertical scroll summed over all events.
    pub scroll: i64,
}

impl InputSnapshot {
    /// Whether a directional key is held.
    pub open spec fn keyed(self) -> bool {
        self.forward || self.backward || self.left || self.right
    }

    /// Whether the pointer dragged the rig.
    pub open spec fn dragged(self) -> bool {
        self.drag && self.pointer_moved
    }

    /// Whether the user moved the rig by hand.
    pub open spec fn translates(self) -> bool {
        self.keyed() || self.dragged()
    }

    /// Whether nothing is held and nothing arrived.
    pub open spec fn idle(self) -> bool {
        !self.forward && !self.backward && !self.left && !self.right && !self.clockwise
            && !self.counter_clockwise && !self.rotate && !self.drag && !self.pointer_moved
            && self.motion_x == 0 && self.motion_y == 0 && self.scroll == 0
    }

    /// The snapshot that the given bindings make of what is held and of the
    /// events that arrived.
    pub open spec fn of(
        keyboard: KeyboardConf,
        mouse: MouseConf,
        keys: Seq<KeyCode>,
        buttons: Seq<MouseButton>,
        motion: Seq<MouseMotion>,
        wheel: Seq<MouseWheel>,
    ) -> InputSnapshot {
        InputSnapshot {
            forward: any_held(keyboard.forward@, keys),
            backward: any_held(keyboard.backward@, keys),
            left: any_held(keyboard.left@, keys),
            right: any_held(keyboard.right@, keys),
            clockwise: any_held(keyboard.clockwise@, keys),
            counter_clockwise: any_held(keyboard.counter_clockwise@, keys),
            rotate: buttons.contains(mouse.rotate),
            drag: buttons.contains(mouse.drag),
            pointer_moved: motion.len() > 0,
            motion_x: clamp(total_x(motion)) as i64,
            motion_y: clamp(total_y(motion)) as i64,
            scroll: clamp(total_scroll(wheel)) as i64,
        }
    }

    /// The snapshot of a frame without input.
    pub fn none() -> (input: InputSnapshot)
        ensures
            input.idle(),
    {
        InputSnapshot {
            forward: false,
            backward: false,
            left: false,
            right: false,
            clockwise: false,
            counter_clockwise: false,
            rotate: false,
            drag: false,
            pointer_moved: false,
            motion_x: 0,
            motion_y: 0,
            scroll: 0,
        }
    }
}

/// Whether `key` is held.
pub fn key_held(key: KeyCode, held: &Vec<KeyCode>) -> (found: bool)
    ensures
        found == held@.contains(key),
{
    let mut i: usize = 0;
    while i < held.len()
        invariant
            i <= held.len(),
            forall|j: int| 0 <= j < i ==> held[j] != key,
        decreases held.len() - i,
    {
        if held[i] == key {
            return true;
        }
        i += 1;
    }
    false
}

/// Whether `button` is held.
pub fn button_held(button: MouseButton, held: &Vec<MouseButton>) -> (found: bool)
    ensures
        found == held@.contains(button),
{
    let mut i: usize = 0;
    while i < held.len()
        invariant
            i <= held.len(),
            forall|j: int| 0 <= j < i ==> held[j] != button,
        decreases held.len() - i,
    {
        if held[i] == button {
            return true;
        }
        i += 1;
    }
    false
}

/// Whether a binding is triggered: one of its keys is held.
pub fn binding_held(bound: &Vec<KeyCode>, held: &Vec<KeyCode>) -> (found: bool)
    ensures
        found == any_held(bound@, held@),
{
    let mut i: usize = 0;
    while i < bound.len()
        invariant
            i <= bound.len(),
            forall|j: int| 0 <= j < i ==> !held@.contains(#[trigger] bound[j]),
        decreases bound.len() - i,
    {
        if key_held(bound[i], held) {
            return true;
        }
        i += 1;
    }
    false
}

/// A sum of `count` values of type `i64` stays within `count` times their
/// range.
pub open spec fn within(sum: int, count: int) -> bool {
    -count * 0x8000_0000_0000_0000 <= sum <= count * 0x8000_0000_0000_0000
}

/// Sums the motion of the events of a frame, each axis saturated.
pub fn sum_motion(events: &Vec<MouseMotion>) -> (sum: (i64, i64))
    ensures
        sum.0 == clamp(total_x(events@)),
        sum.1 == clamp(total_y(events@)),
{
    let mut x: i128 = 0;
    let mut y: i128 = 0;
    let mut i: usize = 0;
    while i < events.len()
        invariant
            i <= events.len(),
            x == total_x(events@.take(i as int)),
            y == total_y(events@.take(i as int)),
            within(x as int, i as int),
            within(y as int, i as int),
        decreases events.len() - i,
    {
        proof {
            let grown = events@.take(i + 1);
            assert(grown.drop_last() =~= events@.take(i as int));
            assert(grown.last() == events[i as int]);
        }
        x = x + events[i].delta_x as i128;
        y = y + events[i].delta_y as i128;
        i += 1;
    }
    assert(events@.take(i as int) =~= events@);
    (saturate(x), saturate(y))
}

/// Sums the scroll of the events of a frame, saturated.
pub fn sum_scroll(events: &Vec<MouseWheel>) -> (sum: i64)
    ensures
        sum == clamp(total_scroll(events@)),
{
    let mut y: i128 = 0;
    let mut i: usize = 0;
    while i < events.len()
        invariant
            i <= events.len(),
            y == total_scroll(events@.take(i as int)),
            within(y as int, i as int),
        decreases events.len() - i,
    {
        proof {
            let grown = events@.take(i + 1);
            assert(grown.drop_last() =~= events@.take(i as int));
            assert(grown.last() == events[i as int]);
        }
        y = y + events[i].y as i128;
        i += 1;
    }
    assert(events@.take(i as int) =~= events@);
    saturate(y)
}

/// Reads the input of a frame.
///
/// Every event that arrived since the reader last read is summed into the
/// snapshot, and the reader moves past it, so that the next frame starts
/// after it. What is held is reported as it is now.
pub fn read_input(
    keyboard: &KeyboardConf,
    mouse: &MouseConf,
    keys: &Vec<KeyCode>,
    buttons: &Vec<MouseButton>,
    motion: &EventQueue<MouseMotion>,
    wheel: &EventQueue<MouseWheel>,
    reader: &mut MouseEventReader,
) -> (input: InputSnapshot)
    requires
        motion.well_formed(),
        wheel.well_formed(),
    ensures
        input == InputSnapshot::of(
            *keyboard,
            *mouse,
            keys@,
            buttons@,
            motion.since(old(reader).motion.position as nat),
            wheel.since(old(reader).wheel.position as nat),
        ),
        motion.since(final(reader).motion.position as nat).len() == 0,
        wheel.since(final(reader).wheel.position as nat).len() == 0,
        final(reader).motion.position >= old(reader).motion.position,
        final(reader).wheel.position >= old(reader).wheel.position,
{
    let mut motion_cursor = reader.motion;
    let mut wheel_cursor = reader.wheel;
    let moved = motion.read(&mut motion_cursor);
    let scrolled = wheel.read(&mut wheel_cursor);
    reader.motion = motion_cursor;
    reader.wheel = wheel_cursor;
    let swept = sum_motion(&moved);
    InputSnapshot {
        forward: binding_held(&keyboard.forward, keys),
        backward: binding_held(&keyboard.backward, keys),
        left: binding_held(&keyboard.left, keys),
        right: binding_held(&keyboard.right, keys),
        clockwise: binding_held(&keyboard.clockwise, keys),
        counter_clockwise: binding_held(&keyboard.counter_clockwise, keys),
        rotate: button_held(mouse.rotate, buttons),
        drag: button_held(mouse.drag, buttons),
        pointer_moved: moved.len() > 0,
        motion_x: swept.0,
        motion_y: swept.1,
        scroll: sum_scroll(&scrolled),
    }
}

} // verus!

//! A demonstration board: blocks of buildings between streets, and a car
//! that drives back and forth for the rig to follow.

use crate::fixed::{clamp, negate, plus, product, times};
use crate::vector::Vec3;
use rand::Rng;
use vstd::prelude::*;

verus! {

/// The board reaches from `-BOARD_REACH` to `BOARD_REACH` on both axes.
pub const BOARD_REACH: i32 = 25;

/// Every fourth line of the board is a street.
pub const STREET_SPACING: i32 = 4;

/// How far along its direction, in millionths of a world unit, the car
/// drives before it turns back.
pub const CAR_RANGE: i64 = 24_000_000;

/// A building: where it stands, and which of the meshes and materials of the
/// board it is made of.
#[derive(Clone, Copy, Debug, PartialEq, Eq, Structural)]
pub struct Lot {
    pub x: i32,
    pub z: i32,
    pub mesh: usize,
    pub material: usize,
}

/// Whether the line at `coordinate` is a street.
pub open spec fn is_street(coordinate: int) -> bool {
    coordinate % (STREET_SPACING as int) == 0
}

/// How many lines of the board carry buildings.
pub const BUILDING_LINES: usize = 38;

/// The coordinate of the building line with the given number, counted from
/// zero at the low edge of the board: the lines in ascending order, without
/// the streets.
pub open spec fn building_line(number: int) -> int {
    number + (number + 2) / 3 - BOARD_REACH
}

/// The number of the building line at `coordinate`, or of the next one
/// above a street.
pub open spec fn line_number(coordinate: int) -> int {
    coordinate + BOARD_REACH - (coordinate + BOARD_REACH + 2) / (STREET_SPACING as int)
}

/// The building lines are the lines of the board that are no streets, each
/// once, in ascending order.
pub proof fn law_building_lines_skip_the_streets()
    ensures
        forall|k: int|
            0 <= k < BUILDING_LINES ==> -BOARD_REACH <= #[trigger] building_line(k) <= BOARD_REACH
                && !is_street(building_line(k)),
        forall|k: int, l: int|
            0 <= k < l < BUILDING_LINES ==> #[trigger] building_line(k) < #[trigger] building_line(
                l,
            ),
        forall|c: int|
            -BOARD_REACH <= c <= BOARD_REACH && !is_street(c) ==> 0 <= line_number(c)
                < BUILDING_LINES && building_line(#[trigger] line_number(c)) == c,
{
}

/// The lines of the board on which buildings stand, in ascending order.
pub fn building_lines() -> (lines: Vec<i32>)
    ensures
        lines.len() == BUILDING_LINES,
        forall|k: int| 0 <= k < lines.len() ==> #[trigger] lines[k] == building_line(k),
{
    let mut lines: Vec<i32> = Vec::new();
    let mut c: i32 = -BOARD_REACH;
    while c <= BOARD_REACH
        invariant
            -BOARD_REACH <= c <= BOARD_REACH + 1,
            lines.len() == line_number(c as int),
            forall|k: int| 0 <= k < lines.len() ==> #[trigger] lines[k] == building_line(k),
        decreases BOARD_REACH + 1 - c,
    {
        if c % STREET_SPACING != 0 {
            lines.push(c);
        }
        c += 1;
    }
    lines
}

/// A number below `bound`, drawn by `Rng::gen_range` of the `rand` crate on
/// the generator of the thread, `thread_rng`. The contract claims only what
/// holds of every draw from the range `0..bound`: the number lies in it. The
/// range must not be empty, on which `gen_range` panics. Nothing is proved
/// of the call; in particular, the first draw on a thread takes its seed
/// from the operating system and panics where that fails.
#[verifier::external_body]
fn random_below(bound: usize) -> (index: usize)
    requires
        bound > 0,
    ensures
        index < bound,
{
    rand::thread_rng().gen_range(0..bound)
}

/// Whether `lot` is the building with the given number, counted row by row:
/// it stands on the crossing of the building lines of its row and column.
pub open spec fn stands_at(lot: Lot, number: int) -> bool {
    &&& lot.x == building_line(number / (BUILDING_LINES as int))
    &&& lot.z == building_line(number % (BUILDING_LINES as int))
}

/// Lays out the board: one building on every crossing of two building lines,
/// row by row, each with a mesh and a material drawn at random from the
/// `meshes` and `materials` that the host has.
pub fn board(meshes: usize, materials: usize) -> (lots: Vec<Lot>)
    requires
        meshes > 0,
        materials > 0,
    ensures
        lots.len() == BUILDING_LINES * BUILDING_LINES,
        forall|k: int|
            0 <= k < lots.len() ==> stands_at(#[trigger] lots[k], k) && lots[k].mesh < meshes
                && lots[k].material < materials,
{
    let lines = building_lines();
    let mut lots: Vec<Lot> = Vec::new();
    let mut i: usize = 0;
    while i < BUILDING_LINES
        invariant
            lines.len() == BUILDING_LINES,
            i <= BUILDING_LINES,
            lots.len() == i * BUILDING_LINES,
            meshes > 0,
            materials > 0,
            forall|k: int| 0 <= k < lines.len() ==> #[trigger] lines[k] == building_line(k),
            forall|k: int|
                0 <= k < lots.len() ==> stands_at(#[trigger] lots[k], k) && lots[k].mesh < meshes
                    && lots[k].material < materials,
        decreases BUILDING_LINES - i,
    {
        let mut j: usize = 0;
        while j < BUILDING_LINES
            invariant
                lines.len() == BUILDING_LINES,
                i < BUILDING_LINES,
                j <= BUILDING_LINES,
                lots.len() == i * BUILDING_LINES + j,
                meshes > 0,
                materials > 0,
                forall|k: int| 0 <= k < lines.len() ==> #[trigger] lines[k] == building_line(k),
                forall|k: int|
                    0 <= k < lots.len() ==> stands_at(#[trigger] lots[k], k) && lots[k].mesh
                        < meshes && lots[k].material < materials,
            decreases BUILDING_LINES - j,
        {
            let mesh = random_below(meshes);
            let material = random_below(materials);
            lots.push(Lot { x: lines[i], z: lines[j], mesh, material });
            j += 1;
        }
        i += 1;
    }
    lots
}

/// A car that drives along a line through the origin.
#[derive(Clone, Copy, Debug, PartialEq, Eq, Structural)]
pub struct MovingCar {
    /// The direction of travel, of length one.
    pub direction: Vec3,
    /// World units per second.
    pub speed: i64,
}

/// How far `place` lies along `direction`, in saturating fixed point.
pub open spec fn progress(place: Vec3, direction: Vec3) -> int {
    clamp(
        clamp(
            clamp(product(place.x as int, direction.x as int)) + clamp(
                product(place.y as int, direction.y as int),
            ),
        ) + clamp(product(place.z as int, direction.z as int)),
    )
}

/// `direction`, reversed.
pub open spec fn reversed(direction: Vec3) -> Vec3 {
    Vec3 {
        x: clamp(-direction.x) as i64,
        y: clamp(-direction.y) as i64,
        z: clamp(-direction.z) as i64,
    }
}

/// Microseconds as seconds in fixed point, saturated.
pub open spec fn seconds(elapsed: u64) -> i64 {
    clamp(elapsed as int) as i64
}

impl MovingCar {
    /// The direction in which a car at `place` drives on: its own, or the
    /// reverse where it is beyond its range.
    pub open spec fn heading_at(self, place: Vec3) -> Vec3 {
        if progress(place, self.direction) > CAR_RANGE || progress(place, self.direction)
            < -CAR_RANGE {
            reversed(self.direction)
        } else {
            self.direction
        }
    }

    /// Drives the car for `elapsed` microseconds. A car beyond its range
    /// turns back first.
    pub fn advance(&mut self, place: &mut Vec3, elapsed: u64)
        ensures
            final(self).speed == old(self).speed,
            final(self).direction == old(self).heading_at(*old(place)),
            *final(place) == old(place).sum(
                final(self).direction.stretched(
                    clamp(product(old(self).speed as int, seconds(elapsed) as int)) as i64,
                ),
            ),
    {
        let along = plus(
            plus(times(place.x, self.direction.x), times(place.y, self.direction.y)),
            times(place.z, self.direction.z),
        );
        if along > CAR_RANGE || along < -CAR_RANGE {
            self.direction = Vec3 {
                x: negate(self.direction.x),
                y: negate(self.direction.y),
                z: negate(self.direction.z),
            };
        }
        let time: i64 = if elapsed > i64::MAX as u64 {
            i64::MAX
        } else {
            elapsed as i64
        };
        let step = times(self.speed, time);
        *place = place.plus(self.direction.scaled(step));
    }
}

} // verus!

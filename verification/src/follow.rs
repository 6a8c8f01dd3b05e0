//! The follow coordinator.
//!
//! An entity that carries a `CameraRigFollow` is either followed or not. A
//! pick sets the flag; any translation of the rig by hand clears the flag of
//! every entity. While an entity is followed, each frame in which it moved
//! puts the rig exactly where the entity is, without smoothing.

use crate::transform::RigidTransform;
use crate::vector::Vec3;
use vstd::prelude::*;

verus! {

/// Whether the rig follows the entity that carries this flag.
#[derive(Clone, Copy, Debug, PartialEq, Eq, Structural)]
pub struct CameraRigFollow(pub bool);

/// An entity that the rig may follow, as the rig sees it in one frame.
#[derive(Clone, Copy, Debug, PartialEq, Eq, Structural)]
pub struct Followable {
    pub follow: CameraRigFollow,
    /// The transform of the entity changed since the previous frame.
    pub moved: bool,
    /// Where the entity is.
    pub translation: Vec3,
}

impl Followable {
    /// Whether the entity draws the rig this frame.
    pub open spec fn leads(self) -> bool {
        self.follow.0 && self.moved
    }

    /// The same entity, no longer followed.
    pub open spec fn released(self) -> Followable {
        Followable { follow: CameraRigFollow(false), moved: self.moved, translation: self.translation }
    }
}

/// The followables with every flag cleared.
pub open spec fn all_released(followables: Seq<Followable>) -> Seq<Followable> {
    Seq::new(followables.len(), |i: int| followables[i].released())
}

/// Where the rig is drawn to: the place of the last followable that leads,
/// if any does.
pub open spec fn leader(followables: Seq<Followable>) -> Option<Vec3>
    decreases followables.len(),
{
    if followables.len() == 0 {
        None
    } else if followables.last().leads() {
        Some(followables.last().translation)
    } else {
        leader(followables.drop_last())
    }
}

/// `transform` put at the place of the leader, if there is one.
pub open spec fn drawn(transform: RigidTransform, leader: Option<Vec3>) -> RigidTransform {
    match leader {
        Some(place) => RigidTransform { translation: place, rotation: transform.rotation },
        None => transform,
    }
}

/// `pending` with its translation put at the place of the leader, if there
/// are both a pending target and a leader.
pub open spec fn drawn_target(pending: Option<RigidTransform>, leader: Option<Vec3>) -> Option<
    RigidTransform,
> {
    match pending {
        Some(target) => Some(drawn(target, leader)),
        None => None,
    }
}

impl CameraRigFollow {
    /// Takes a pick: a press on the entity starts the follow, anything else
    /// leaves the flag as it is.
    pub fn select(&mut self, pressed: bool)
        ensures
            final(self).0 == (old(self).0 || pressed),
    {
        if pressed {
            self.0 = true;
        }
    }
}

/// Ends every follow.
pub fn release_all(followables: &mut Vec<Followable>)
    ensures
        final(followables)@ == all_released(old(followables)@),
{
    let mut i: usize = 0;
    while i < followables.len()
        invariant
            i <= followables.len(),
            followables.len() == old(followables).len(),
            forall|j: int| 0 <= j < i ==> followables[j] == old(followables)[j].released(),
            forall|j: int| i <= j < followables.len() ==> followables[j] == old(followables)[j],
        decreases followables.len() - i,
    {
        let entity = followables[i];
        followables.set(
            i,
            Followable {
                follow: CameraRigFollow(false),
                moved: entity.moved,
                translation: entity.translation,
            },
        );
        i += 1;
    }
    assert(followables@ =~= all_released(old(followables)@));
}

/// Finds where the rig is drawn to.
pub fn find_leader(followables: &Vec<Followable>) -> (place: Option<Vec3>)
    ensures
        place == leader(followables@),
{
    let mut place: Option<Vec3> = None;
    let mut i: usize = 0;
    while i < followables.len()
        invariant
            i <= followables.len(),
            place == leader(followables@.take(i as int)),
        decreases followables.len() - i,
    {
        proof {
            let grown = followables@.take(i + 1);
            assert(grown.drop_last() =~= followables@.take(i as int));
            assert(grown.last() == followables[i as int]);
        }
        let entity = followables[i];
        if entity.follow.0 && entity.moved {
            place = Some(entity.translation);
        }
        i += 1;
    }
    assert(followables@.take(i as int) =~= followables@);
    place
}

/// Puts the rig where its leader is.
///
/// The live translation takes the place of the leader exactly, and so does
/// the translation of the pending target, if the rig has one. Rotations stay.
/// Without a leader nothing changes.
pub fn follow_rig(
    live: &mut RigidTransform,
    pending: &mut Option<RigidTransform>,
    followables: &Vec<Followable>,
)
    ensures
        *final(live) == drawn(*old(live), leader(followables@)),
        *final(pending) == drawn_target(*old(pending), leader(followables@)),
{
    match find_leader(followables) {
        Some(place) => {
            live.translation = place;
            match *pending {
                Some(target) => {
                    *pending = Some(RigidTransform { translation: place, rotation: target.rotation });
                },
                None => {},
            }
        },
        None => {},
    }
}

} // verus!
